use account_core::hasher::hash_password;
use account_core::hasher::resolve_salt;
use account_core::hasher::DIGEST_LENGTH;
use sha2::Digest;
use sha2::Sha512;

fn hex(bytes: &[u8]) -> String {
    let mut out = String::new();
    for b in bytes {
        out.push_str(&format!("{:02x}", b));
    }
    out
}

#[test]
fn digest_of_known_message() {
    let digest = hash_password("hello", " world");
    assert_eq!(
        hex(&digest),
        "309ecc489c12d6eb4cc40f50c902f2b4d0ed77ee511a7c7a9bcd3ca86d4cd86f\
         989dd35bc5ff499670da34255b45b0cfd830e81f605dcf7dc5542e93ae9cd76f"
    );
}

#[test]
fn digest_is_not_the_message() {
    let digest = hash_password("hello", " world");
    assert_ne!(digest, b"hello world".to_vec());
}

#[test]
fn digest_has_fixed_length() {
    assert_eq!(DIGEST_LENGTH, 64);
    assert_eq!(hash_password("", "").len(), 64);
    assert_eq!(hash_password("p", "<<dev>>").len(), 64);
    let long = "x".repeat(1000);
    assert_eq!(hash_password(&long, "salt").len(), 64);
}

#[test]
fn digest_is_deterministic() {
    let first = hash_password("correct horse", "<<dev>>");
    let second = hash_password("correct horse", "<<dev>>");
    assert_eq!(first, second);
}

#[test]
fn digests_of_sample_passwords_differ() {
    let samples = ["", "a", "b", "password", "Password", "password ", "pässword", "123456"];
    for i in 0..samples.len() {
        for j in 0..samples.len() {
            if i != j {
                assert_ne!(
                    hash_password(samples[i], "<<dev>>"),
                    hash_password(samples[j], "<<dev>>")
                );
            }
        }
    }
}

#[test]
fn digest_depends_on_salt() {
    assert_ne!(hash_password("password", "<<dev>>"), hash_password("password", "other"));
}

#[test]
fn digest_feeds_password_then_salt() {
    let mut hasher = Sha512::new();
    hasher.input("pässword");
    hasher.input(String::from("<<dev>>"));
    let expected = hasher.result().to_vec();
    assert_eq!(hash_password("pässword", "<<dev>>"), expected);
    assert_ne!(hash_password("<<dev>>", "pässword"), expected);
}

#[test]
fn digest_sees_only_the_joined_bytes() {
    assert_eq!(hash_password("ab", "c"), hash_password("a", "bc"));
}

#[test]
fn unset_salt_falls_back() {
    assert_eq!(resolve_salt(None), "<<dev>>");
}

#[test]
fn configured_salt_is_kept() {
    assert_eq!(resolve_salt(Some(String::from("pepper"))), "pepper");
    assert_eq!(resolve_salt(Some(String::new())), "");
}
