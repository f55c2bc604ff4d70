use bcrypt_bsd::base64::{decode_bytes, encode_bytes};
use bcrypt_bsd::format::{format_salt, parse_salt, Version};
use bcrypt_bsd::{check_cost, gen_salt_from, hash, to_str, CryptError, ErrorKind};
use std::time::Instant;

fn gen_salt(cost: u8) -> Result<[u8; 30], CryptError> {
    check_cost(cost)?;
    let mut raw = [0u8; 16];
    rand::Rng::fill_bytes(&mut rand::os::OsRng::new().unwrap(), &mut raw);
    gen_salt_from(cost, &raw)
}

fn hash_str(password: &str, salt: &str) -> String {
    let h = hash(password, salt.as_bytes()).unwrap();
    to_str(&h).unwrap().to_string()
}

fn kind_of<T>(r: Result<T, CryptError>) -> ErrorKind {
    match r {
        Ok(_) => panic!("expected an error"),
        Err(e) => e.kind,
    }
}

#[test]
fn test_to_str() {
    assert_eq!(to_str(&[114, 117, 115, 116, 097, 099, 101, 097, 110, 0]).unwrap(),
               "rustacean");
    assert!(to_str(&[114, 117, 115, 116, 097, 099, 101, 097, 110]).is_err());
    assert!(to_str(&[114, 117, 115, 116, 097, 099, 101, 097, 0, 110, 0]).is_err());
}

#[test]
fn test_gen_salt() {
    let salt = gen_salt(4).unwrap();
    assert_eq!(to_str(&salt).unwrap().len(), 29);
}

#[test]
fn test_hash() {
    let pwhash = hash("Password", &gen_salt(4).unwrap()).unwrap();
    assert_eq!(to_str(&pwhash).unwrap().len(), 60);

    assert!(hash("Password", &[0; 15]).is_err());
    assert!(hash("", &gen_salt(4).unwrap()).is_err());
}

#[test]
fn known_vector_u_star_u() {
    assert_eq!(
        hash_str("U*U", "$2b$05$CCCCCCCCCCCCCCCCCCCCC."),
        "$2b$05$CCCCCCCCCCCCCCCCCCCCC.E5YPO9kmyuRGyh0XouQYb4YMJKvyOeW"
    );
}

#[test]
fn known_vector_password() {
    assert_eq!(
        hash_str("Password", "$2b$04$abcdefghijklmnopqrstuu"),
        "$2b$04$abcdefghijklmnopqrstuuTPDV0OwhYeYnYm.u9agjuOukgboVJvy"
    );
    assert_eq!(
        hash_str("Password", "$2b$05$CCCCCCCCCCCCCCCCCCCCC."),
        "$2b$05$CCCCCCCCCCCCCCCCCCCCC.eSu0qEu1ni31gWOa9e7jYZxOyFd9uqm"
    );
}

#[test]
fn known_vector_longest_password() {
    let pw = "a".repeat(72);
    assert_eq!(
        hash_str(&pw, "$2b$04$abcdefghijklmnopqrstuu"),
        "$2b$04$abcdefghijklmnopqrstuuBzzIgyKkz7xMWYSzkIjUSnxEQFQ0WNe"
    );
}

#[test]
fn salt_field_is_written_canonically() {
    assert_eq!(
        hash_str("Password", "$2a$04$abcdefghijklmnopqrstuv"),
        "$2a$04$abcdefghijklmnopqrstuuTPDV0OwhYeYnYm.u9agjuOukgboVJvy"
    );
    assert_eq!(
        hash_str("Password", "$2y$04$abcdefghijklmnopqrstuu"),
        "$2y$04$abcdefghijklmnopqrstuuTPDV0OwhYeYnYm.u9agjuOukgboVJvy"
    );
}

#[test]
fn hash_string_serves_as_salt() {
    let full = "$2b$04$abcdefghijklmnopqrstuuTPDV0OwhYeYnYm.u9agjuOukgboVJvy";
    assert_eq!(hash_str("Password", full), full);
    assert_ne!(hash_str("password", full), full);
}

#[test]
fn hash_is_deterministic() {
    let salt = gen_salt(4).unwrap();
    let a = hash("correct horse", &salt).unwrap();
    let b = hash("correct horse", &salt).unwrap();
    assert_eq!(a.to_vec(), b.to_vec());
}

#[test]
fn bad_password_lengths_are_rejected() {
    let salt = "$2b$04$abcdefghijklmnopqrstuu";
    assert_eq!(kind_of(hash("", salt.as_bytes())), ErrorKind::InvalidPassword);
    let long = "x".repeat(73);
    assert_eq!(kind_of(hash(&long, salt.as_bytes())), ErrorKind::InvalidPassword);
    let longer = "x".repeat(200);
    assert_eq!(kind_of(hash(&longer, salt.as_bytes())), ErrorKind::InvalidPassword);
    assert_eq!(kind_of(hash("pass\0word", salt.as_bytes())), ErrorKind::InvalidPassword);
}

#[test]
fn short_salts_are_rejected() {
    let full = b"$2b$04$abcdefghijklmnopqrstuu";
    for n in 0..29 {
        assert_eq!(kind_of(hash("Password", &full[..n])), ErrorKind::InvalidSaltFormat);
    }
    assert!(hash("Password", &full[..]).is_ok());
}

#[test]
fn malformed_salts_are_rejected() {
    for bad in [
        "$2c$04$abcdefghijklmnopqrstuu",
        "$2x$04$abcdefghijklmnopqrstuu",
        "$3b$04$abcdefghijklmnopqrstuu",
        "$2b$03$abcdefghijklmnopqrstuu",
        "$2b$32$abcdefghijklmnopqrstuu",
        "$2b$4a$abcdefghijklmnopqrstuu",
        "$2b$04#abcdefghijklmnopqrstuu",
        "$2b$04$abcdefghijklmnopqrst*u",
    ] {
        assert_eq!(kind_of(parse_salt(bad.as_bytes())), ErrorKind::InvalidSaltFormat);
        assert_eq!(kind_of(hash("Password", bad.as_bytes())), ErrorKind::InvalidSaltFormat);
    }
}

#[test]
fn gen_salt_rejects_bad_costs() {
    assert_eq!(kind_of(gen_salt(3)), ErrorKind::InvalidCost);
    assert_eq!(kind_of(gen_salt(32)), ErrorKind::InvalidCost);
    assert_eq!(kind_of(gen_salt(0)), ErrorKind::InvalidCost);
    assert!(gen_salt(31).is_ok());
    assert!(check_cost(4).is_ok());
    let e = check_cost(32).unwrap_err();
    assert_eq!(e.kind(), ErrorKind::InvalidCost);
    assert_eq!(e.errno(), 22);
}

#[test]
fn gen_salt_from_writes_the_salt_string() {
    let raw: [u8; 16] = [0, 1, 2, 3, 4, 5, 6, 7, 8, 9, 10, 11, 12, 13, 14, 15];
    let s = gen_salt_from(5, &raw).unwrap();
    assert_eq!(to_str(&s).unwrap(), "$2b$05$..CA.uOD/eaGAOmJB.yMBu");
    assert_eq!(kind_of(gen_salt_from(2, &raw)), ErrorKind::InvalidCost);
}

#[test]
fn salt_round_trips_through_parse() {
    let raws: [[u8; 16]; 3] = [[0; 16], [0xff; 16], [7, 200, 13, 0, 99, 1, 254, 128, 64, 32, 16, 8, 4, 2, 1, 0]];
    for cost in 4..=31u8 {
        for raw in raws.iter() {
            let s = gen_salt_from(cost, raw).unwrap();
            let p = parse_salt(&s).unwrap();
            assert_eq!(p.cost, cost);
            assert_eq!(p.version, Version::V2b);
            assert_eq!(&p.raw, raw);
        }
    }
    let g = gen_salt(12).unwrap();
    assert_eq!(parse_salt(&g).unwrap().cost, 12);
}

#[test]
fn generated_salts_differ() {
    let a = gen_salt(4).unwrap();
    let b = gen_salt(4).unwrap();
    assert_ne!(a.to_vec(), b.to_vec());
}

#[test]
fn format_salt_writes_each_version() {
    let raw = [0u8; 16];
    assert_eq!(format_salt(Version::V2a, 10, &raw), b"$2a$10$......................".to_vec());
    assert_eq!(format_salt(Version::V2y, 31, &raw), b"$2y$31$......................".to_vec());
}

#[test]
fn base64_exact_values() {
    assert_eq!(encode_bytes(&[0xff]), b"9u".to_vec());
    assert_eq!(encode_bytes(&[0, 1, 2]), b"..CA".to_vec());
    let sixteen: Vec<u8> = (0..16).collect();
    assert_eq!(encode_bytes(&sixteen), b"..CA.uOD/eaGAOmJB.yMBu".to_vec());
    let twenty_three: Vec<u8> = (0..23).collect();
    assert_eq!(encode_bytes(&twenty_three), b"..CA.uOD/eaGAOmJB.yMBv.PCfKSDPW".to_vec());
    assert_eq!(encode_bytes(&[]), Vec::<u8>::new());
}

#[test]
fn base64_round_trips_lengths_one_to_twenty_three() {
    for n in 1..=23usize {
        let b: Vec<u8> = (0..n).map(|i| (i * 37 + 11) as u8).collect();
        let e = encode_bytes(&b);
        assert_eq!(e.len(), 4 * (n / 3) + if n % 3 == 0 { 0 } else { n % 3 + 1 });
        assert_eq!(decode_bytes(&e, n).unwrap(), b);
        let ones = vec![0xffu8; n];
        assert_eq!(decode_bytes(&encode_bytes(&ones), n).unwrap(), ones);
    }
}

#[test]
fn base64_rejects_characters_outside_the_alphabet() {
    assert!(decode_bytes(b"..C+", 3).is_none());
    assert!(decode_bytes(b"$.CA", 3).is_none());
    assert_eq!(decode_bytes(b"..CA", 3).unwrap(), vec![0, 1, 2]);
}

#[test]
fn to_str_rejects_invalid_utf8() {
    assert_eq!(kind_of(to_str(&[0xff, 0xfe, 0])), ErrorKind::InvalidArgument);
    assert_eq!(kind_of(to_str(&[])), ErrorKind::InvalidArgument);
    assert_eq!(to_str(&[0]).unwrap(), "");
    assert_eq!(to_str("é\0".as_bytes()).unwrap(), "é");
}

#[test]
fn error_accessors() {
    let e = CryptError::new(5, None);
    assert_eq!(e.errno(), 5);
    assert_eq!(e.kind(), ErrorKind::InternalCipherFault);
    let e = CryptError::invalid_arg("bad".to_string());
    assert_eq!(e.kind(), ErrorKind::InvalidArgument);
    assert_eq!(e.errno(), 22);
    assert_eq!(e.desc, Some("bad".to_string()));
}

#[test]
fn cost_roughly_doubles_time() {
    let time = |salt: &str| {
        let start = Instant::now();
        hash("Password", salt.as_bytes()).unwrap();
        start.elapsed().as_secs_f64()
    };
    let low = time("$2b$06$abcdefghijklmnopqrstuu");
    let high = time("$2b$09$abcdefghijklmnopqrstuu");
    // Eight times the rounds; allow a wide margin for timer noise.
    assert!(high > 2.0 * low, "cost 9 took {} s, cost 6 took {} s", high, low);
}
