use yas_deploy::config::{required_felt, ConfigError};
use yas_deploy::felt::Felt;

#[test]
fn hexadecimal_setting_gives_its_element() {
    assert_eq!(required_felt(Some("0x1234")), Ok(Felt::from_u128(0x1234)));
    assert_eq!(required_felt(Some("ff")), Ok(Felt::from_u128(255)));
    assert_eq!(required_felt(Some("")), Ok(Felt::zero()));
    assert_eq!(
        required_felt(Some("0x041a78e741e5af2fec34b695679bc6891742439f7afb8484ecd7766661ad02bf")),
        Felt::from_limbs(0x041a78e741e5af2fec34b695679bc689, 0x1742439f7afb8484ecd7766661ad02bf)
            .ok_or(ConfigError::Invalid)
    );
}

#[test]
fn missing_setting_is_named() {
    assert_eq!(required_felt(None), Err(ConfigError::Missing));
}

#[test]
fn setting_that_is_no_element_is_invalid() {
    assert_eq!(required_felt(Some("0xzz")), Err(ConfigError::Invalid));
    assert_eq!(required_felt(Some("twelve")), Err(ConfigError::Invalid));
    let modulus = "0x800000000000011000000000000000000000000000000000000000000000001";
    assert_eq!(required_felt(Some(modulus)), Err(ConfigError::Invalid));
    let long = "0x00000000000000000000000000000000000000000000000000000000000000001";
    assert_eq!(required_felt(Some(long)), Err(ConfigError::Invalid));
}
