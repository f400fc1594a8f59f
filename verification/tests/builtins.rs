use std::str::FromStr;

use uplc::builtins::{DefaultFunction, UnknownBuiltinName, UnknownBuiltinTag, MAX_TAG};

#[test]
fn every_tag_decodes_and_encodes_back() {
    for tag in 0..=53u8 {
        let builtin = DefaultFunction::try_from(tag).unwrap();
        assert_eq!(builtin.tag(), tag);
    }
}

#[test]
fn max_tag_is_fifty_three() {
    assert_eq!(MAX_TAG, 53);
}

#[test]
fn tags_from_the_first_numbering() {
    assert_eq!(DefaultFunction::AddInteger.tag(), 0);
    assert_eq!(DefaultFunction::LessThanEqualsInteger.tag(), 9);
    assert_eq!(DefaultFunction::AppendByteString.tag(), 10);
    assert_eq!(DefaultFunction::Sha2_256.tag(), 18);
    assert_eq!(DefaultFunction::Sha3_256.tag(), 19);
    assert_eq!(DefaultFunction::Blake2b_256.tag(), 20);
    assert_eq!(DefaultFunction::VerifySignature.tag(), 21);
    assert_eq!(DefaultFunction::AppendString.tag(), 22);
    assert_eq!(DefaultFunction::IfThenElse.tag(), 26);
    assert_eq!(DefaultFunction::ChooseUnit.tag(), 27);
    assert_eq!(DefaultFunction::Trace.tag(), 28);
    assert_eq!(DefaultFunction::FstPair.tag(), 29);
    assert_eq!(DefaultFunction::NullList.tag(), 35);
    assert_eq!(DefaultFunction::ChooseData.tag(), 36);
    assert_eq!(DefaultFunction::EqualsData.tag(), 47);
}

#[test]
fn tags_that_were_added_later() {
    assert_eq!(DefaultFunction::MkPairData.tag(), 48);
    assert_eq!(DefaultFunction::MkNilData.tag(), 49);
    assert_eq!(DefaultFunction::MkNilPairData.tag(), 50);
    assert_eq!(DefaultFunction::SerialiseData.tag(), 51);
    assert_eq!(DefaultFunction::VerifyEcdsaSecp256k1Signature.tag(), 52);
    assert_eq!(DefaultFunction::VerifySchnorrSecp256k1Signature.tag(), 53);
}

#[test]
fn later_tags_decode_to_their_builtins() {
    assert_eq!(DefaultFunction::try_from(0), Ok(DefaultFunction::AddInteger));
    assert_eq!(DefaultFunction::try_from(21), Ok(DefaultFunction::VerifySignature));
    assert_eq!(DefaultFunction::try_from(22), Ok(DefaultFunction::AppendString));
    assert_eq!(DefaultFunction::try_from(47), Ok(DefaultFunction::EqualsData));
    assert_eq!(DefaultFunction::try_from(48), Ok(DefaultFunction::MkPairData));
    assert_eq!(DefaultFunction::try_from(50), Ok(DefaultFunction::MkNilPairData));
    assert_eq!(DefaultFunction::try_from(51), Ok(DefaultFunction::SerialiseData));
    assert_eq!(DefaultFunction::try_from(52), Ok(DefaultFunction::VerifyEcdsaSecp256k1Signature));
    assert_eq!(DefaultFunction::try_from(53), Ok(DefaultFunction::VerifySchnorrSecp256k1Signature));
}

#[test]
fn tag_54_is_unknown() {
    let error = DefaultFunction::try_from(54).unwrap_err();
    assert_eq!(error, UnknownBuiltinTag(54));
    assert_eq!(error.message(), "Default Function not found - 54");
}

#[test]
fn every_tag_above_53_is_unknown() {
    for tag in 54..=255u8 {
        assert_eq!(DefaultFunction::try_from(tag), Err(UnknownBuiltinTag(tag)));
    }
}

#[test]
fn tags_decode_through_try_into() {
    let decoded: Result<DefaultFunction, UnknownBuiltinTag> = 28u8.try_into();
    assert_eq!(decoded, Ok(DefaultFunction::Trace));
}

#[test]
fn message_names_the_tag_in_decimal() {
    assert_eq!(UnknownBuiltinTag(0).message(), "Default Function not found - 0");
    assert_eq!(UnknownBuiltinTag(7).message(), "Default Function not found - 7");
    assert_eq!(UnknownBuiltinTag(60).message(), "Default Function not found - 60");
    assert_eq!(UnknownBuiltinTag(100).message(), "Default Function not found - 100");
    assert_eq!(UnknownBuiltinTag(109).message(), "Default Function not found - 109");
    assert_eq!(UnknownBuiltinTag(255).message(), "Default Function not found - 255");
}

#[test]
fn names_are_lower_camel_case() {
    assert_eq!(DefaultFunction::AddInteger.name(), "addInteger");
    assert_eq!(DefaultFunction::LessThanEqualsByteString.name(), "lessThanEqualsByteString");
    assert_eq!(DefaultFunction::IfThenElse.name(), "ifThenElse");
    assert_eq!(DefaultFunction::Trace.name(), "trace");
    assert_eq!(DefaultFunction::EncodeUtf8.name(), "encodeUtf8");
    assert_eq!(DefaultFunction::IData.name(), "iData");
    assert_eq!(DefaultFunction::UnBData.name(), "unBData");
    assert_eq!(DefaultFunction::MkNilPairData.name(), "mkNilPairData");
    assert_eq!(
        DefaultFunction::VerifyEcdsaSecp256k1Signature.name(),
        "verifyEcdsaSecp256k1Signature"
    );
    assert_eq!(DefaultFunction::Sha3_256.name(), "sha3256");
    assert_eq!(DefaultFunction::Blake2b_256.name(), "blake2b256");
}

#[test]
fn sha2_256_keeps_its_underscore() {
    assert_eq!(DefaultFunction::Sha2_256.name(), "sha2_256");
    assert_eq!(DefaultFunction::from_str("sha2_256"), Ok(DefaultFunction::Sha2_256));
    assert_eq!(DefaultFunction::from_str("sha2256"), Err(UnknownBuiltinName));
}

#[test]
fn every_name_is_found_again() {
    for tag in 0..=53u8 {
        let builtin = DefaultFunction::try_from(tag).unwrap();
        assert_eq!(DefaultFunction::from_str(builtin.name()), Ok(builtin));
    }
}

#[test]
fn no_two_builtins_share_a_name() {
    for left in 0..=53u8 {
        for right in 0..left {
            let left = DefaultFunction::try_from(left).unwrap();
            let right = DefaultFunction::try_from(right).unwrap();
            assert_ne!(left.name(), right.name());
        }
    }
}

#[test]
fn other_spellings_are_not_found() {
    for text in ["", "AddInteger", "addinteger", "addInteger ", "addIntege", "Sha2_256", "tracé"] {
        assert_eq!(DefaultFunction::from_str(text), Err(UnknownBuiltinName));
    }
}

/// The spelling that strum derives from an identifier under `camelCase`:
/// heck's upper camel case with the first letter in lower case.
fn lower_camel_case(identifier: &str) -> String {
    let upper = heck::ToUpperCamelCase::to_upper_camel_case(identifier);
    let mut letters = upper.chars();
    match letters.next() {
        Some(first) => first.to_lowercase().chain(letters).collect(),
        None => String::new(),
    }
}

#[test]
fn names_are_the_identifiers_in_lower_camel_case() {
    for tag in 0..=53u8 {
        let builtin = DefaultFunction::try_from(tag).unwrap();
        let identifier = format!("{:?}", builtin);
        if builtin == DefaultFunction::Sha2_256 {
            assert_eq!(builtin.name(), "sha2_256");
        } else {
            assert_eq!(builtin.name(), lower_camel_case(&identifier));
        }
    }
}

#[test]
fn names_are_parsed() {
    assert_eq!("addInteger".parse(), Ok(DefaultFunction::AddInteger));
    assert_eq!("ifThenElse".parse(), Ok(DefaultFunction::IfThenElse));
    assert_eq!("unBData".parse(), Ok(DefaultFunction::UnBData));
    assert_eq!("mkNilPairData".parse(), Ok(DefaultFunction::MkNilPairData));
    assert_eq!(
        "verifySchnorrSecp256k1Signature".parse(),
        Ok(DefaultFunction::VerifySchnorrSecp256k1Signature)
    );
    assert_eq!("sha3256".parse(), Ok(DefaultFunction::Sha3_256));
    assert_eq!("blake2b256".parse(), Ok(DefaultFunction::Blake2b_256));
    assert_eq!("nothing".parse::<DefaultFunction>(), Err(UnknownBuiltinName));
}
