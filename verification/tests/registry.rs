use digital_certificate::AccountId;
use digital_certificate::DigitalCertificate;
use digital_certificate::Error;

fn alice() -> AccountId {
    AccountId::new([0x01; 32])
}

fn bob() -> AccountId {
    AccountId::new([0x02; 32])
}

fn random_account_id() -> AccountId {
    AccountId::new([0x42; 32])
}

#[test]
fn test_new() {
    let s: &[u8] = "antiersolutions".as_bytes();
    let i = s.to_owned();
    let certificate_authority = i;
    let contract = DigitalCertificate::new(alice(), certificate_authority.clone());

    assert_eq!(contract.issuer(), alice());
    assert_eq!(contract.certificate_authority(), &certificate_authority);
}

#[test]
fn test_mint_certificate() {
    let s: &[u8] = "antiersolutions".as_bytes();
    let i = s.to_owned();
    let certificate_authority = i;

    let mut contract = DigitalCertificate::new(alice(), certificate_authority);
    let token_id = 1;
    let s: &[u8] = "qwerty.com".as_bytes();
    let i = s.to_owned();
    let token_uri = i;
    let token_owner = bob();
    let s: &[u8] = "23092030".as_bytes();
    let i = s.to_owned();
    let expiration_date = i;
    let s: &[u8] = "JohnDoe".as_bytes();
    let i = s.to_owned();
    let candidate_name = i;

    let result = contract.mint(
        alice(),
        token_id,
        token_uri,
        token_owner.clone(),
        expiration_date,
        candidate_name,
    );
    assert_eq!(result, Ok(()));
    assert_eq!(contract.owner_of(1), Some(token_owner));
}

#[test]
fn test_mint_certificate_only_admin_can_issue() {
    // Arrange
    let s: &[u8] = "antiersolutions".as_bytes();
    let i = s.to_owned();
    let certificate_authority = i;

    let contract = DigitalCertificate::new(alice(), certificate_authority);
    let mut contract = DigitalCertificate::new(random_account_id().clone(), vec![1, 2, 3]);
    let token_id = 1;
    let s: &[u8] = "qwerty.com".as_bytes();
    let i = s.to_owned();
    let token_uri = i;
    let token_owner = bob();
    let s: &[u8] = "23092030".as_bytes();
    let i = s.to_owned();
    let expiration_date = i;
    let s: &[u8] = "JohnDoe".as_bytes();
    let i = s.to_owned();
    let candidate_name = i;

    let result = contract.mint(
        bob(),
        token_id,
        token_uri,
        token_owner.clone(),
        expiration_date,
        candidate_name,
    );

    // Assert
    assert_eq!(result, Err(Error::OnlyAdminCanIssue));
    assert_eq!(contract.owner_of(1), None);
}

#[test]
fn test_burn_certificate() {
    let s: &[u8] = "antiersolutions".as_bytes();
    let i = s.to_owned();
    let certificate_authority = i;

    let contract = DigitalCertificate::new(alice(), certificate_authority);
    let mut contract = DigitalCertificate::new(random_account_id().clone(), vec![1, 2, 3]);
    let token_id = 1;
    let s: &[u8] = "qwerty.com".as_bytes();
    let i = s.to_owned();
    let token_uri = i;
    let token_owner = bob();
    let s: &[u8] = "23092030".as_bytes();
    let i = s.to_owned();
    let expiration_date = i;
    let s: &[u8] = "JohnDoe".as_bytes();
    let i = s.to_owned();
    let candidate_name = i;

    let result = contract.mint(
        alice(),
        token_id,
        token_uri,
        token_owner.clone(),
        expiration_date,
        candidate_name,
    );
    let result = contract.burn(alice(), 1);
    // Assert
    assert_eq!(contract.owner_of(1), None);
    let _ = result;
}
