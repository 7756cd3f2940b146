use rcli::key_material_of_draw;
use rcli::process_text_key_generate;
use rcli::process_text_sign;
use rcli::process_text_verify;
use rcli::CliError;
use rcli::ContentStream;
use rcli::KeyMaterial;
use rcli::TextKeyGenerateOpts;
use rcli::TextSignFormat;
use rcli::TextSignOpts;
use rcli::TextVerifyOpts;

const FORMATS: [TextSignFormat; 2] = [TextSignFormat::Black3, TextSignFormat::Ed25519];

fn hex(text: &str) -> Vec<u8> {
    (0..text.len() / 2)
        .map(|i| u8::from_str_radix(&text[2 * i..2 * i + 2], 16).unwrap())
        .collect()
}

fn content(bytes: &[u8]) -> ContentStream {
    ContentStream::Bytes(bytes.to_vec())
}

fn seed(fill: u8) -> [u8; 32] {
    let mut seed = [0_u8; 32];
    for (i, byte) in seed.iter_mut().enumerate() {
        *byte = fill.wrapping_mul(31).wrapping_add(i as u8);
    }
    seed
}

// Test vector 1 of RFC 8032, section 7.1: secret key, public key, signature
// of the empty message.
const RFC8032_SEED: &str = "9d61b19deffd5a60ba844af492ec2cc44449c5697b326919703bac031cae7f60";
const RFC8032_PUBLIC: &str = "d75a980182b10ab7d54bfed3c964073a0ee172f3daa62325af021a68f707511a";
const RFC8032_SIGNATURE: &str = "e5564300c360ac729086e2cc806e828a84877f1eb8e5d974d873e065224901555fb8821590a33bacc61e39701cf9b46bd25bf5f0595bbe24655141438e7a100b";

// The key of the BLAKE3 test vectors.
const BLAKE3_KEY: &[u8; 32] = b"whats the Elvish word for friend";

#[test]
fn a_fresh_shared_key_signs_and_verifies_hello_world() {
    let format = TextSignFormat::Black3;
    let material = process_text_key_generate(format).unwrap();
    let key = material.signing_key();
    let message = content(b"hello world");
    let signature = process_text_sign(&message, &key, format).unwrap();
    assert_eq!(signature.len(), 32);
    assert_eq!(process_text_verify(&message, &key, &signature, format), Ok(true));
    let other = process_text_key_generate(format).unwrap().verifying_key();
    assert_ne!(other, key);
    assert_eq!(process_text_verify(&message, &other, &signature, format), Ok(false));
}

#[test]
fn a_fresh_key_pair_signs_and_verifies_the_empty_message() {
    let format = TextSignFormat::Ed25519;
    let material = process_text_key_generate(format).unwrap();
    let empty = content(b"");
    let signature = process_text_sign(&empty, &material.signing_key(), format).unwrap();
    assert_eq!(signature.len(), 64);
    let public = material.verifying_key();
    assert_eq!(process_text_verify(&empty, &public, &signature, format), Ok(true));
    let mut tampered = signature.clone();
    tampered[63] = tampered[63].wrapping_add(1);
    assert_eq!(process_text_verify(&empty, &public, &tampered, format), Ok(false));
}

#[test]
fn keyed_hash_of_the_empty_content() {
    let signature = process_text_sign(&content(b""), BLAKE3_KEY, TextSignFormat::Black3);
    assert_eq!(
        signature,
        Ok(hex("92b2b75604ed3c761f9d6f62392c8a9227ad0ea3f09573e783f1498a4ed60d26"))
    );
}

#[test]
fn keyed_hash_of_hello_world() {
    let signature = process_text_sign(&content(b"hello world"), BLAKE3_KEY, TextSignFormat::Black3);
    assert_eq!(
        signature,
        Ok(hex("546a11cf08472ee68fb83c3f28ab2dc21ef620a6f03a64b429e4bac4e454d2b2"))
    );
}

#[test]
fn ed25519_signature_of_the_empty_content() {
    let signature = process_text_sign(&content(b""), &hex(RFC8032_SEED), TextSignFormat::Ed25519);
    assert_eq!(signature, Ok(hex(RFC8032_SIGNATURE)));
}

#[test]
fn ed25519_public_key_of_a_seed() {
    let seed: [u8; 32] = hex(RFC8032_SEED).try_into().unwrap();
    let material = KeyMaterial::from_seed(TextSignFormat::Ed25519, seed);
    assert_eq!(material.format(), TextSignFormat::Ed25519);
    assert_eq!(material.signing_key(), hex(RFC8032_SEED));
    assert_eq!(material.verifying_key(), hex(RFC8032_PUBLIC));
    assert_eq!(material.blobs(), vec![hex(RFC8032_SEED), hex(RFC8032_PUBLIC)]);
}

#[test]
fn ed25519_accepts_the_known_signature() {
    let verified = process_text_verify(
        &content(b""),
        &hex(RFC8032_PUBLIC),
        &hex(RFC8032_SIGNATURE),
        TextSignFormat::Ed25519,
    );
    assert_eq!(verified, Ok(true));
}

#[test]
fn ed25519_verifies_with_the_public_key_not_the_seed() {
    let verified = process_text_verify(
        &content(b""),
        &hex(RFC8032_SEED),
        &hex(RFC8032_SIGNATURE),
        TextSignFormat::Ed25519,
    );
    assert_eq!(verified, Ok(false));
}

#[test]
fn shared_key_material_is_the_seed_itself() {
    let material = KeyMaterial::from_seed(TextSignFormat::Black3, *BLAKE3_KEY);
    assert_eq!(material, KeyMaterial::SymmetricMac { key: *BLAKE3_KEY });
    assert_eq!(material.format(), TextSignFormat::Black3);
    assert_eq!(material.signing_key(), BLAKE3_KEY.to_vec());
    assert_eq!(material.verifying_key(), BLAKE3_KEY.to_vec());
    assert_eq!(material.blobs(), vec![BLAKE3_KEY.to_vec()]);
}

#[test]
fn generated_keys_have_the_scheme_and_the_lengths() {
    for format in FORMATS {
        let material = process_text_key_generate(format).unwrap();
        assert_eq!(material.format(), format);
        assert_eq!(material.signing_key().len(), 32);
        assert_eq!(material.verifying_key().len(), 32);
        assert_eq!(material, KeyMaterial::from_seed(format, material.signing_key().try_into().unwrap()));
    }
    let blobs = process_text_key_generate(TextSignFormat::Black3).unwrap().blobs();
    assert_eq!(blobs.len(), 1);
    let blobs = process_text_key_generate(TextSignFormat::Ed25519).unwrap().blobs();
    assert_eq!(blobs.len(), 2);
}

#[test]
fn a_random_source_that_gives_nothing_is_an_error() {
    for format in FORMATS {
        assert_eq!(key_material_of_draw(format, None), Err(CliError::RandomSourceUnavailable));
    }
}

#[test]
fn what_the_random_source_gives_becomes_the_signing_key() {
    for format in FORMATS {
        let material = key_material_of_draw(format, Some(seed(11))).unwrap();
        assert_eq!(material, KeyMaterial::from_seed(format, seed(11)));
        assert_eq!(material.signing_key(), seed(11).to_vec());
    }
}

#[test]
fn generated_keys_are_fresh() {
    for format in FORMATS {
        let first = process_text_key_generate(format).unwrap();
        let second = process_text_key_generate(format).unwrap();
        assert_ne!(first.signing_key(), second.signing_key());
    }
}

#[test]
fn round_trip() {
    let messages: [&[u8]; 4] = [b"", b"a", b"hello world", &[0xff; 3000]];
    for format in FORMATS {
        for fill in 0..4 {
            let material = KeyMaterial::from_seed(format, seed(fill));
            for message in messages {
                let message = content(message);
                let signature = process_text_sign(&message, &material.signing_key(), format).unwrap();
                assert_eq!(signature.len(), format.signature_len());
                assert_eq!(
                    process_text_verify(&message, &material.verifying_key(), &signature, format),
                    Ok(true)
                );
            }
        }
    }
}

#[test]
fn signing_is_deterministic() {
    for format in FORMATS {
        let key = seed(9);
        let first = process_text_sign(&content(b"same bytes"), &key, format).unwrap();
        let second = process_text_sign(&content(b"same bytes"), &key, format).unwrap();
        assert_eq!(first, second);
    }
}

#[test]
fn a_flipped_message_bit_is_noticed() {
    for format in FORMATS {
        let material = KeyMaterial::from_seed(format, seed(1));
        let message = b"hello world".to_vec();
        let signature = process_text_sign(&content(&message), &material.signing_key(), format).unwrap();
        for index in 0..message.len() {
            for bit in 0..8 {
                let mut changed = message.clone();
                changed[index] ^= 1 << bit;
                assert_eq!(
                    process_text_verify(&content(&changed), &material.verifying_key(), &signature, format),
                    Ok(false)
                );
            }
        }
    }
}

#[test]
fn a_flipped_signature_bit_is_noticed() {
    for format in FORMATS {
        let material = KeyMaterial::from_seed(format, seed(2));
        let message = content(b"hello world");
        let signature = process_text_sign(&message, &material.signing_key(), format).unwrap();
        for index in 0..signature.len() {
            for bit in 0..8 {
                let mut changed = signature.clone();
                changed[index] ^= 1 << bit;
                assert_eq!(
                    process_text_verify(&message, &material.verifying_key(), &changed, format),
                    Ok(false)
                );
            }
        }
    }
}

#[test]
fn another_key_does_not_verify() {
    for format in FORMATS {
        let material = KeyMaterial::from_seed(format, seed(3));
        let other = KeyMaterial::from_seed(format, seed(4));
        let message = content(b"hello world");
        let signature = process_text_sign(&message, &material.signing_key(), format).unwrap();
        assert_eq!(
            process_text_verify(&message, &other.verifying_key(), &signature, format),
            Ok(false)
        );
    }
}

#[test]
fn a_signature_of_the_other_scheme_does_not_verify() {
    let message = content(b"hello world");
    let key = seed(5);
    let mac = process_text_sign(&message, &key, TextSignFormat::Black3).unwrap();
    let public = KeyMaterial::from_seed(TextSignFormat::Ed25519, key).verifying_key();
    assert_eq!(process_text_verify(&message, &public, &mac, TextSignFormat::Ed25519), Ok(false));
    let signature = process_text_sign(&message, &key, TextSignFormat::Ed25519).unwrap();
    assert_eq!(process_text_verify(&message, &key, &signature, TextSignFormat::Black3), Ok(false));
}

#[test]
fn a_key_of_the_wrong_length_is_an_error() {
    let message = content(b"hello world");
    for format in FORMATS {
        for length in [0_usize, 1, 16, 31, 33, 64] {
            let key = vec![7_u8; length];
            assert_eq!(process_text_sign(&message, &key, format), Err(CliError::InvalidKeyLength));
            let signature = vec![0_u8; format.signature_len()];
            assert_eq!(
                process_text_verify(&message, &key, &signature, format),
                Err(CliError::InvalidKeyLength)
            );
        }
    }
}

#[test]
fn a_signature_of_the_wrong_length_is_not_valid_and_no_error() {
    let message = content(b"hello world");
    for format in FORMATS {
        let material = KeyMaterial::from_seed(format, seed(6));
        let signature = process_text_sign(&message, &material.signing_key(), format).unwrap();
        let key = material.verifying_key();
        let longer = [signature.clone(), vec![0]].concat();
        assert_eq!(process_text_verify(&message, &key, &longer, format), Ok(false));
        let shorter = &signature[..signature.len() - 1];
        assert_eq!(process_text_verify(&message, &key, shorter, format), Ok(false));
        assert_eq!(process_text_verify(&message, &key, &[], format), Ok(false));
    }
}

#[test]
fn a_public_key_that_is_no_point_verifies_nothing() {
    // y = 2 has no x on the curve
    let mut key = [0_u8; 32];
    key[0] = 2;
    let verified = process_text_verify(&content(b""), &key, &hex(RFC8032_SIGNATURE), TextSignFormat::Ed25519);
    assert_eq!(verified, Ok(false));
}

#[test]
fn a_failed_read_is_reported_in_the_words_of_the_source() {
    let failed = ContentStream::Failed("Is a directory (os error 21)".into());
    let report = CliError::ContentReadError("Is a directory (os error 21)".into());
    for format in FORMATS {
        let key = seed(7);
        assert_eq!(process_text_sign(&failed, &key, format), Err(report.clone()));
        let signature = vec![0_u8; format.signature_len()];
        assert_eq!(process_text_verify(&failed, &key, &signature, format), Err(report.clone()));
        assert_eq!(process_text_verify(&failed, &key, &[], format), Err(report.clone()));
    }
}

#[test]
fn the_key_is_looked_at_before_the_content() {
    let failed = ContentStream::Failed("unreadable".into());
    for format in FORMATS {
        assert_eq!(process_text_sign(&failed, &[1, 2, 3], format), Err(CliError::InvalidKeyLength));
        assert_eq!(
            process_text_verify(&failed, &[1, 2, 3], &[], format),
            Err(CliError::InvalidKeyLength)
        );
    }
}

#[test]
fn sign_options_give_the_signature_as_text() {
    let opts = TextSignOpts {
        input: "-".into(),
        key: "fixtures/blake3.txt".into(),
        format: TextSignFormat::Black3,
    };
    assert_eq!(
        opts.execute(&content(b"hello world"), BLAKE3_KEY),
        Ok("VGoRzwhHLuaPuDw_KKstwh72IKbwOmS0KeS6xORU0rI".into())
    );
    let opts = TextSignOpts {
        input: "-".into(),
        key: "fixtures/ed25519.sk".into(),
        format: TextSignFormat::Ed25519,
    };
    assert_eq!(
        opts.execute(&content(b""), &hex(RFC8032_SEED)),
        Ok("5VZDAMNgrHKQhuLMgG6CioSHfx645dl02HPgZSJJAVVfuIIVkKM7rMYeOXAc-bRr0lv18FlbviRlUUFDjnoQCw".into())
    );
    assert_eq!(opts.execute(&content(b""), &[0; 31]), Err(CliError::InvalidKeyLength));
    assert_eq!(
        opts.execute(&ContentStream::Failed("gone".into()), &hex(RFC8032_SEED)),
        Err(CliError::ContentReadError("gone".into()))
    );
}

fn verify_opts(format: TextSignFormat, sig: &str) -> TextVerifyOpts {
    TextVerifyOpts { input: "-".into(), key: "key".into(), sig: sig.into(), format }
}

#[test]
fn verify_options_read_the_signature_from_its_text() {
    let opts = verify_opts(TextSignFormat::Black3, "VGoRzwhHLuaPuDw_KKstwh72IKbwOmS0KeS6xORU0rI");
    assert_eq!(opts.execute(&content(b"hello world"), BLAKE3_KEY), Ok(true));
    assert_eq!(opts.execute(&content(b"hello world!"), BLAKE3_KEY), Ok(false));
    let opts = verify_opts(
        TextSignFormat::Ed25519,
        "5VZDAMNgrHKQhuLMgG6CioSHfx645dl02HPgZSJJAVVfuIIVkKM7rMYeOXAc-bRr0lv18FlbviRlUUFDjnoQCw",
    );
    assert_eq!(opts.execute(&content(b""), &hex(RFC8032_PUBLIC)), Ok(true));
    assert_eq!(opts.execute(&content(b"x"), &hex(RFC8032_PUBLIC)), Ok(false));
}

#[test]
fn a_malformed_signature_text_is_an_error_and_a_wrong_one_is_not() {
    for format in FORMATS {
        let key = seed(8);
        let malformed = verify_opts(format, "not base64!!");
        assert_eq!(
            malformed.execute(&content(b"hello world"), &key),
            Err(CliError::MalformedSignatureText)
        );
        // found before the key is looked at
        assert_eq!(
            malformed.execute(&content(b"hello world"), &[1]),
            Err(CliError::MalformedSignatureText)
        );
        let wrong = verify_opts(format, "AAAA");
        assert_eq!(wrong.execute(&content(b"hello world"), &key), Ok(false));
        assert_eq!(wrong.execute(&content(b"hello world"), &[1]), Err(CliError::InvalidKeyLength));
    }
}

#[test]
fn sign_and_verify_options_round_trip() {
    for format in FORMATS {
        let material = KeyMaterial::from_seed(format, seed(10));
        let sign = TextSignOpts { input: "-".into(), key: "key".into(), format };
        let token = sign.execute(&content(b"hello world"), &material.signing_key()).unwrap();
        assert_eq!(token.len(), if format == TextSignFormat::Black3 { 43 } else { 86 });
        let verify = verify_opts(format, &token);
        assert_eq!(verify.execute(&content(b"hello world"), &material.verifying_key()), Ok(true));
    }
}

#[test]
fn key_files_are_named_and_ordered() {
    let material = KeyMaterial::from_seed(TextSignFormat::Black3, *BLAKE3_KEY);
    assert_eq!(
        TextKeyGenerateOpts::key_files(&material),
        vec![("blake3.txt", BLAKE3_KEY.to_vec())]
    );
    let seed: [u8; 32] = hex(RFC8032_SEED).try_into().unwrap();
    let material = KeyMaterial::from_seed(TextSignFormat::Ed25519, seed);
    assert_eq!(
        TextKeyGenerateOpts::key_files(&material),
        vec![("ed25519.sk", hex(RFC8032_SEED)), ("ed25519.pk", hex(RFC8032_PUBLIC))]
    );
}

#[test]
fn key_generation_options_give_the_files_of_their_scheme() {
    let opts = TextKeyGenerateOpts { format: TextSignFormat::Black3, output: "fixtures".into() };
    let files = opts.execute().unwrap();
    assert_eq!(files.len(), 1);
    assert_eq!(files[0].0, "blake3.txt");
    assert_eq!(files[0].1.len(), 32);
    let opts = TextKeyGenerateOpts { format: TextSignFormat::Ed25519, output: "fixtures".into() };
    let files = opts.execute().unwrap();
    assert_eq!(files.len(), 2);
    assert_eq!(files[0].0, "ed25519.sk");
    assert_eq!(files[1].0, "ed25519.pk");
    let seed: [u8; 32] = files[0].1.clone().try_into().unwrap();
    let material = KeyMaterial::from_seed(TextSignFormat::Ed25519, seed);
    assert_eq!(files[1].1, material.verifying_key());
}
