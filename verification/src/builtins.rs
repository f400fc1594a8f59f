//! The builtin functions of Untyped Plutus Core, with their tags in the
//! binary format and their names in the textual format.

use crate::text::{append_decimal, decimal, same_text};
use vstd::prelude::*;
use vstd::string::StringExecFns;

verus! {

/// All the possible builtin functions in Untyped Plutus Core.
///
/// Every builtin is bound for good to one tag of the binary format and to one
/// spelling of the textual format; `tag` and `name` hold the two tables.
#[allow(non_camel_case_types)]
#[derive(Debug, Clone, Copy, PartialEq, Eq, Structural)]
pub enum DefaultFunction {
    // Integer functions
    AddInteger,
    SubtractInteger,
    MultiplyInteger,
    DivideInteger,
    QuotientInteger,
    RemainderInteger,
    ModInteger,
    EqualsInteger,
    LessThanInteger,
    LessThanEqualsInteger,
    // ByteString functions
    AppendByteString,
    ConsByteString,
    SliceByteString,
    LengthOfByteString,
    IndexByteString,
    EqualsByteString,
    LessThanByteString,
    LessThanEqualsByteString,
    // Cryptography and hash functions
    Sha2_256,
    Sha3_256,
    Blake2b_256,
    VerifySignature,
    VerifyEcdsaSecp256k1Signature,
    VerifySchnorrSecp256k1Signature,
    // String functions
    AppendString,
    EqualsString,
    EncodeUtf8,
    DecodeUtf8,
    // Bool function
    IfThenElse,
    // Unit function
    ChooseUnit,
    // Tracing function
    Trace,
    // Pairs functions
    FstPair,
    SndPair,
    // List functions
    ChooseList,
    MkCons,
    HeadList,
    TailList,
    NullList,
    // Data functions
    ChooseData,
    ConstrData,
    MapData,
    ListData,
    IData,
    BData,
    UnConstrData,
    UnMapData,
    UnListData,
    UnIData,
    UnBData,
    EqualsData,
    SerialiseData,
    // Misc constructors
    MkPairData,
    MkNilData,
    MkNilPairData,
}

/// The largest tag that is bound to a builtin.
pub const MAX_TAG: u8 = 53;

impl DefaultFunction {
    /// The tag of this builtin in the binary format.
    pub open spec fn spec_tag(self) -> u8 {
        match self {
            DefaultFunction::AddInteger => 0,
            DefaultFunction::SubtractInteger => 1,
            DefaultFunction::MultiplyInteger => 2,
            DefaultFunction::DivideInteger => 3,
            DefaultFunction::QuotientInteger => 4,
            DefaultFunction::RemainderInteger => 5,
            DefaultFunction::ModInteger => 6,
            DefaultFunction::EqualsInteger => 7,
            DefaultFunction::LessThanInteger => 8,
            DefaultFunction::LessThanEqualsInteger => 9,
            DefaultFunction::AppendByteString => 10,
            DefaultFunction::ConsByteString => 11,
            DefaultFunction::SliceByteString => 12,
            DefaultFunction::LengthOfByteString => 13,
            DefaultFunction::IndexByteString => 14,
            DefaultFunction::EqualsByteString => 15,
            DefaultFunction::LessThanByteString => 16,
            DefaultFunction::LessThanEqualsByteString => 17,
            DefaultFunction::Sha2_256 => 18,
            DefaultFunction::Sha3_256 => 19,
            DefaultFunction::Blake2b_256 => 20,
            DefaultFunction::VerifySignature => 21,
            DefaultFunction::VerifyEcdsaSecp256k1Signature => 52,
            DefaultFunction::VerifySchnorrSecp256k1Signature => 53,
            DefaultFunction::AppendString => 22,
            DefaultFunction::EqualsString => 23,
            DefaultFunction::EncodeUtf8 => 24,
            DefaultFunction::DecodeUtf8 => 25,
            DefaultFunction::IfThenElse => 26,
            DefaultFunction::ChooseUnit => 27,
            DefaultFunction::Trace => 28,
            DefaultFunction::FstPair => 29,
            DefaultFunction::SndPair => 30,
            DefaultFunction::ChooseList => 31,
            DefaultFunction::MkCons => 32,
            DefaultFunction::HeadList => 33,
            DefaultFunction::TailList => 34,
            DefaultFunction::NullList => 35,
            DefaultFunction::ChooseData => 36,
            DefaultFunction::ConstrData => 37,
            DefaultFunction::MapData => 38,
            DefaultFunction::ListData => 39,
            DefaultFunction::IData => 40,
            DefaultFunction::BData => 41,
            DefaultFunction::UnConstrData => 42,
            DefaultFunction::UnMapData => 43,
            DefaultFunction::UnListData => 44,
            DefaultFunction::UnIData => 45,
            DefaultFunction::UnBData => 46,
            DefaultFunction::EqualsData => 47,
            DefaultFunction::SerialiseData => 51,
            DefaultFunction::MkPairData => 48,
            DefaultFunction::MkNilData => 49,
            DefaultFunction::MkNilPairData => 50,
        }
    }

    /// The spelling of this builtin in the textual format: its name in lower
    /// camel case, but for `sha2_256`.
    pub open spec fn spec_name(self) -> Seq<char> {
        match self {
            DefaultFunction::AddInteger => "addInteger"@,
            DefaultFunction::SubtractInteger => "subtractInteger"@,
            DefaultFunction::MultiplyInteger => "multiplyInteger"@,
            DefaultFunction::DivideInteger => "divideInteger"@,
            DefaultFunction::QuotientInteger => "quotientInteger"@,
            DefaultFunction::RemainderInteger => "remainderInteger"@,
            DefaultFunction::ModInteger => "modInteger"@,
            DefaultFunction::EqualsInteger => "equalsInteger"@,
            DefaultFunction::LessThanInteger => "lessThanInteger"@,
            DefaultFunction::LessThanEqualsInteger => "lessThanEqualsInteger"@,
            DefaultFunction::AppendByteString => "appendByteString"@,
            DefaultFunction::ConsByteString => "consByteString"@,
            DefaultFunction::SliceByteString => "sliceByteString"@,
            DefaultFunction::LengthOfByteString => "lengthOfByteString"@,
            DefaultFunction::IndexByteString => "indexByteString"@,
            DefaultFunction::EqualsByteString => "equalsByteString"@,
            DefaultFunction::LessThanByteString => "lessThanByteString"@,
            DefaultFunction::LessThanEqualsByteString => "lessThanEqualsByteString"@,
            DefaultFunction::Sha2_256 => "sha2_256"@,
            DefaultFunction::Sha3_256 => "sha3256"@,
            DefaultFunction::Blake2b_256 => "blake2b256"@,
            DefaultFunction::VerifySignature => "verifySignature"@,
            DefaultFunction::VerifyEcdsaSecp256k1Signature => "verifyEcdsaSecp256k1Signature"@,
            DefaultFunction::VerifySchnorrSecp256k1Signature => "verifySchnorrSecp256k1Signature"@,
            DefaultFunction::AppendString => "appendString"@,
            DefaultFunction::EqualsString => "equalsString"@,
            DefaultFunction::EncodeUtf8 => "encodeUtf8"@,
            DefaultFunction::DecodeUtf8 => "decodeUtf8"@,
            DefaultFunction::IfThenElse => "ifThenElse"@,
            DefaultFunction::ChooseUnit => "chooseUnit"@,
            DefaultFunction::Trace => "trace"@,
            DefaultFunction::FstPair => "fstPair"@,
            DefaultFunction::SndPair => "sndPair"@,
            DefaultFunction::ChooseList => "chooseList"@,
            DefaultFunction::MkCons => "mkCons"@,
            DefaultFunction::HeadList => "headList"@,
            DefaultFunction::TailList => "tailList"@,
            DefaultFunction::NullList => "nullList"@,
            DefaultFunction::ChooseData => "chooseData"@,
            DefaultFunction::ConstrData => "constrData"@,
            DefaultFunction::MapData => "mapData"@,
            DefaultFunction::ListData => "listData"@,
            DefaultFunction::IData => "iData"@,
            DefaultFunction::BData => "bData"@,
            DefaultFunction::UnConstrData => "unConstrData"@,
            DefaultFunction::UnMapData => "unMapData"@,
            DefaultFunction::UnListData => "unListData"@,
            DefaultFunction::UnIData => "unIData"@,
            DefaultFunction::UnBData => "unBData"@,
            DefaultFunction::EqualsData => "equalsData"@,
            DefaultFunction::SerialiseData => "serialiseData"@,
            DefaultFunction::MkPairData => "mkPairData"@,
            DefaultFunction::MkNilData => "mkNilData"@,
            DefaultFunction::MkNilPairData => "mkNilPairData"@,
        }
    }

    /// The builtin that is bound to `tag`, if there is one.
    pub open spec fn with_tag(tag: u8) -> Option<DefaultFunction> {
        match tag {
            0 => Some(DefaultFunction::AddInteger),
            1 => Some(DefaultFunction::SubtractInteger),
            2 => Some(DefaultFunction::MultiplyInteger),
            3 => Some(DefaultFunction::DivideInteger),
            4 => Some(DefaultFunction::QuotientInteger),
            5 => Some(DefaultFunction::RemainderInteger),
            6 => Some(DefaultFunction::ModInteger),
            7 => Some(DefaultFunction::EqualsInteger),
            8 => Some(DefaultFunction::LessThanInteger),
            9 => Some(DefaultFunction::LessThanEqualsInteger),
            10 => Some(DefaultFunction::AppendByteString),
            11 => Some(DefaultFunction::ConsByteString),
            12 => Some(DefaultFunction::SliceByteString),
            13 => Some(DefaultFunction::LengthOfByteString),
            14 => Some(DefaultFunction::IndexByteString),
            15 => Some(DefaultFunction::EqualsByteString),
            16 => Some(DefaultFunction::LessThanByteString),
            17 => Some(DefaultFunction::LessThanEqualsByteString),
            18 => Some(DefaultFunction::Sha2_256),
            19 => Some(DefaultFunction::Sha3_256),
            20 => Some(DefaultFunction::Blake2b_256),
            21 => Some(DefaultFunction::VerifySignature),
            22 => Some(DefaultFunction::AppendString),
            23 => Some(DefaultFunction::EqualsString),
            24 => Some(DefaultFunction::EncodeUtf8),
            25 => Some(DefaultFunction::DecodeUtf8),
            26 => Some(DefaultFunction::IfThenElse),
            27 => Some(DefaultFunction::ChooseUnit),
            28 => Some(DefaultFunction::Trace),
            29 => Some(DefaultFunction::FstPair),
            30 => Some(DefaultFunction::SndPair),
            31 => Some(DefaultFunction::ChooseList),
            32 => Some(DefaultFunction::MkCons),
            33 => Some(DefaultFunction::HeadList),
            34 => Some(DefaultFunction::TailList),
            35 => Some(DefaultFunction::NullList),
            36 => Some(DefaultFunction::ChooseData),
            37 => Some(DefaultFunction::ConstrData),
            38 => Some(DefaultFunction::MapData),
            39 => Some(DefaultFunction::ListData),
            40 => Some(DefaultFunction::IData),
            41 => Some(DefaultFunction::BData),
            42 => Some(DefaultFunction::UnConstrData),
            43 => Some(DefaultFunction::UnMapData),
            44 => Some(DefaultFunction::UnListData),
            45 => Some(DefaultFunction::UnIData),
            46 => Some(DefaultFunction::UnBData),
            47 => Some(DefaultFunction::EqualsData),
            48 => Some(DefaultFunction::MkPairData),
            49 => Some(DefaultFunction::MkNilData),
            50 => Some(DefaultFunction::MkNilPairData),
            51 => Some(DefaultFunction::SerialiseData),
            52 => Some(DefaultFunction::VerifyEcdsaSecp256k1Signature),
            53 => Some(DefaultFunction::VerifySchnorrSecp256k1Signature),
            _ => None,
        }
    }

    /// Decoding is the inverse of `tag`: every builtin is the one that is
    /// bound to its tag, every tag up to `MAX_TAG` is bound to a builtin that
    /// has this tag, and no tag above it is bound to one.
    pub proof fn lemma_with_tag(tag: u8, f: DefaultFunction)
        ensures
            Self::with_tag(f.spec_tag()) == Some(f),
            f.spec_tag() <= MAX_TAG,
            tag <= MAX_TAG <==> Self::with_tag(tag) is Some,
            Self::with_tag(tag) matches Some(g) ==> g.spec_tag() == tag,
    {
    }

    /// The tag of this builtin in the binary format.
    #[verifier::when_used_as_spec(spec_tag)]
    pub fn tag(self) -> (tag: u8)
        ensures
            tag == self.spec_tag(),
            tag <= MAX_TAG,
    {
        match self {
            DefaultFunction::AddInteger => 0,
            DefaultFunction::SubtractInteger => 1,
            DefaultFunction::MultiplyInteger => 2,
            DefaultFunction::DivideInteger => 3,
            DefaultFunction::QuotientInteger => 4,
            DefaultFunction::RemainderInteger => 5,
            DefaultFunction::ModInteger => 6,
            DefaultFunction::EqualsInteger => 7,
            DefaultFunction::LessThanInteger => 8,
            DefaultFunction::LessThanEqualsInteger => 9,
            DefaultFunction::AppendByteString => 10,
            DefaultFunction::ConsByteString => 11,
            DefaultFunction::SliceByteString => 12,
            DefaultFunction::LengthOfByteString => 13,
            DefaultFunction::IndexByteString => 14,
            DefaultFunction::EqualsByteString => 15,
            DefaultFunction::LessThanByteString => 16,
            DefaultFunction::LessThanEqualsByteString => 17,
            DefaultFunction::Sha2_256 => 18,
            DefaultFunction::Sha3_256 => 19,
            DefaultFunction::Blake2b_256 => 20,
            DefaultFunction::VerifySignature => 21,
            DefaultFunction::VerifyEcdsaSecp256k1Signature => 52,
            DefaultFunction::VerifySchnorrSecp256k1Signature => 53,
            DefaultFunction::AppendString => 22,
            DefaultFunction::EqualsString => 23,
            DefaultFunction::EncodeUtf8 => 24,
            DefaultFunction::DecodeUtf8 => 25,
            DefaultFunction::IfThenElse => 26,
            DefaultFunction::ChooseUnit => 27,
            DefaultFunction::Trace => 28,
            DefaultFunction::FstPair => 29,
            DefaultFunction::SndPair => 30,
            DefaultFunction::ChooseList => 31,
            DefaultFunction::MkCons => 32,
            DefaultFunction::HeadList => 33,
            DefaultFunction::TailList => 34,
            DefaultFunction::NullList => 35,
            DefaultFunction::ChooseData => 36,
            DefaultFunction::ConstrData => 37,
            DefaultFunction::MapData => 38,
            DefaultFunction::ListData => 39,
            DefaultFunction::IData => 40,
            DefaultFunction::BData => 41,
            DefaultFunction::UnConstrData => 42,
            DefaultFunction::UnMapData => 43,
            DefaultFunction::UnListData => 44,
            DefaultFunction::UnIData => 45,
            DefaultFunction::UnBData => 46,
            DefaultFunction::EqualsData => 47,
            DefaultFunction::SerialiseData => 51,
            DefaultFunction::MkPairData => 48,
            DefaultFunction::MkNilData => 49,
            DefaultFunction::MkNilPairData => 50,
        }
    }

    /// The spelling of this builtin in the textual format.
    pub fn name(self) -> (name: &'static str)
        ensures
            name@ == self.spec_name(),
    {
        match self {
            DefaultFunction::AddInteger => "addInteger",
            DefaultFunction::SubtractInteger => "subtractInteger",
            DefaultFunction::MultiplyInteger => "multiplyInteger",
            DefaultFunction::DivideInteger => "divideInteger",
            DefaultFunction::QuotientInteger => "quotientInteger",
            DefaultFunction::RemainderInteger => "remainderInteger",
            DefaultFunction::ModInteger => "modInteger",
            DefaultFunction::EqualsInteger => "equalsInteger",
            DefaultFunction::LessThanInteger => "lessThanInteger",
            DefaultFunction::LessThanEqualsInteger => "lessThanEqualsInteger",
            DefaultFunction::AppendByteString => "appendByteString",
            DefaultFunction::ConsByteString => "consByteString",
            DefaultFunction::SliceByteString => "sliceByteString",
            DefaultFunction::LengthOfByteString => "lengthOfByteString",
            DefaultFunction::IndexByteString => "indexByteString",
            DefaultFunction::EqualsByteString => "equalsByteString",
            DefaultFunction::LessThanByteString => "lessThanByteString",
            DefaultFunction::LessThanEqualsByteString => "lessThanEqualsByteString",
            DefaultFunction::Sha2_256 => "sha2_256",
            DefaultFunction::Sha3_256 => "sha3256",
            DefaultFunction::Blake2b_256 => "blake2b256",
            DefaultFunction::VerifySignature => "verifySignature",
            DefaultFunction::VerifyEcdsaSecp256k1Signature => "verifyEcdsaSecp256k1Signature",
            DefaultFunction::VerifySchnorrSecp256k1Signature => "verifySchnorrSecp256k1Signature",
            DefaultFunction::AppendString => "appendString",
            DefaultFunction::EqualsString => "equalsString",
            DefaultFunction::EncodeUtf8 => "encodeUtf8",
            DefaultFunction::DecodeUtf8 => "decodeUtf8",
            DefaultFunction::IfThenElse => "ifThenElse",
            DefaultFunction::ChooseUnit => "chooseUnit",
            DefaultFunction::Trace => "trace",
            DefaultFunction::FstPair => "fstPair",
            DefaultFunction::SndPair => "sndPair",
            DefaultFunction::ChooseList => "chooseList",
            DefaultFunction::MkCons => "mkCons",
            DefaultFunction::HeadList => "headList",
            DefaultFunction::TailList => "tailList",
            DefaultFunction::NullList => "nullList",
            DefaultFunction::ChooseData => "chooseData",
            DefaultFunction::ConstrData => "constrData",
            DefaultFunction::MapData => "mapData",
            DefaultFunction::ListData => "listData",
            DefaultFunction::IData => "iData",
            DefaultFunction::BData => "bData",
            DefaultFunction::UnConstrData => "unConstrData",
            DefaultFunction::UnMapData => "unMapData",
            DefaultFunction::UnListData => "unListData",
            DefaultFunction::UnIData => "unIData",
            DefaultFunction::UnBData => "unBData",
            DefaultFunction::EqualsData => "equalsData",
            DefaultFunction::SerialiseData => "serialiseData",
            DefaultFunction::MkPairData => "mkPairData",
            DefaultFunction::MkNilData => "mkNilData",
            DefaultFunction::MkNilPairData => "mkNilPairData",
        }
    }

    /// The builtin that is spelled `name`, if there is one.
    pub open spec fn with_name(name: Seq<char>) -> Option<DefaultFunction> {
        if exists|f: DefaultFunction| f.spec_name() == name {
            Some(choose|f: DefaultFunction| f.spec_name() == name)
        } else {
            None
        }
    }

    /// Parsing is the inverse of `name`: the spelling of a builtin is that of
    /// this builtin alone.
    pub proof fn lemma_with_name(f: DefaultFunction)
        ensures
            Self::with_name(f.spec_name()) == Some(f),
    {
        let found = choose|g: DefaultFunction| g.spec_name() == f.spec_name();
        Self::lemma_names_distinct(found, f);
    }

    /// No two builtins share a spelling.
    pub proof fn lemma_names_distinct(f: DefaultFunction, g: DefaultFunction)
        requires
            f.spec_name() == g.spec_name(),
        ensures
            f == g,
    {
        // the length and three characters tell any two spellings apart
        let (a, b) = (f.spec_name(), g.spec_name());
        assert(a.len() == b.len() && a[0] == b[0] && a[2] == b[2] && a[6] == b[6]);
        reveal_strlit("addInteger");
        reveal_strlit("subtractInteger");
        reveal_strlit("multiplyInteger");
        reveal_strlit("divideInteger");
        reveal_strlit("quotientInteger");
        reveal_strlit("remainderInteger");
        reveal_strlit("modInteger");
        reveal_strlit("equalsInteger");
        reveal_strlit("lessThanInteger");
        reveal_strlit("lessThanEqualsInteger");
        reveal_strlit("appendByteString");
        reveal_strlit("consByteString");
        reveal_strlit("sliceByteString");
        reveal_strlit("lengthOfByteString");
        reveal_strlit("indexByteString");
        reveal_strlit("equalsByteString");
        reveal_strlit("lessThanByteString");
        reveal_strlit("lessThanEqualsByteString");
        reveal_strlit("sha2_256");
        reveal_strlit("sha3256");
        reveal_strlit("blake2b256");
        reveal_strlit("verifySignature");
        reveal_strlit("verifyEcdsaSecp256k1Signature");
        reveal_strlit("verifySchnorrSecp256k1Signature");
        reveal_strlit("appendString");
        reveal_strlit("equalsString");
        reveal_strlit("encodeUtf8");
        reveal_strlit("decodeUtf8");
        reveal_strlit("ifThenElse");
        reveal_strlit("chooseUnit");
        reveal_strlit("trace");
        reveal_strlit("fstPair");
        reveal_strlit("sndPair");
        reveal_strlit("chooseList");
        reveal_strlit("mkCons");
        reveal_strlit("headList");
        reveal_strlit("tailList");
        reveal_strlit("nullList");
        reveal_strlit("chooseData");
        reveal_strlit("constrData");
        reveal_strlit("mapData");
        reveal_strlit("listData");
        reveal_strlit("iData");
        reveal_strlit("bData");
        reveal_strlit("unConstrData");
        reveal_strlit("unMapData");
        reveal_strlit("unListData");
        reveal_strlit("unIData");
        reveal_strlit("unBData");
        reveal_strlit("equalsData");
        reveal_strlit("serialiseData");
        reveal_strlit("mkPairData");
        reveal_strlit("mkNilData");
        reveal_strlit("mkNilPairData");
    }
}

/// The failure of `DefaultFunction::from_str`: the text is the name of no
/// builtin.
#[derive(Debug, Clone, Copy, PartialEq, Eq, Structural)]
pub struct UnknownBuiltinName;

impl core::str::FromStr for DefaultFunction {
    type Err = UnknownBuiltinName;

    /// Parse a builtin from its name in the textual format.
    fn from_str(s: &str) -> (r: Result<Self, Self::Err>)
        ensures
            r == match DefaultFunction::with_name(s@) {
                Some(f) => Ok::<DefaultFunction, UnknownBuiltinName>(f),
                None => Err(UnknownBuiltinName),
            },
            r matches Ok(f) ==> f.spec_name() == s@,
            r is Err ==> forall|f: DefaultFunction| #[trigger] f.spec_name() != s@,
    {
        let mut tag: u8 = 0;
        while tag <= MAX_TAG
            invariant
                tag <= MAX_TAG + 1,
                forall|f: DefaultFunction| f.spec_tag() < tag ==> #[trigger] f.spec_name() != s@,
            decreases MAX_TAG + 1 - tag,
        {
            if let Ok(f) = DefaultFunction::try_from(tag) {
                if same_text(f.name(), s) {
                    proof {
                        DefaultFunction::lemma_with_name(f);
                    }
                    return Ok(f);
                }
            }
            tag += 1;
        }
        Err(UnknownBuiltinName)
    }
}

/// The failure of `DefaultFunction::try_from`: the tag that no builtin is
/// bound to.
#[derive(Debug, Clone, Copy, PartialEq, Eq, Structural)]
pub struct UnknownBuiltinTag(pub u8);

impl UnknownBuiltinTag {
    /// The text of the error: it names the tag.
    pub fn message(&self) -> (text: String)
        ensures
            text@ == "Default Function not found - "@ + decimal(self.0 as nat),
    {
        let mut text = String::from_str("Default Function not found - ");
        append_decimal(&mut text, self.0 as u128);
        text
    }
}

impl TryFrom<u8> for DefaultFunction {
    type Error = UnknownBuiltinTag;

    /// Decode a builtin from its tag.
    fn try_from(v: u8) -> (r: Result<Self, Self::Error>)
        ensures
            r is Ok <==> v <= MAX_TAG,
            r matches Ok(f) ==> f.spec_tag() == v,
            r matches Err(e) ==> e == UnknownBuiltinTag(v),
    {
        match v {
            0 => Ok(DefaultFunction::AddInteger),
            1 => Ok(DefaultFunction::SubtractInteger),
            2 => Ok(DefaultFunction::MultiplyInteger),
            3 => Ok(DefaultFunction::DivideInteger),
            4 => Ok(DefaultFunction::QuotientInteger),
            5 => Ok(DefaultFunction::RemainderInteger),
            6 => Ok(DefaultFunction::ModInteger),
            7 => Ok(DefaultFunction::EqualsInteger),
            8 => Ok(DefaultFunction::LessThanInteger),
            9 => Ok(DefaultFunction::LessThanEqualsInteger),
            10 => Ok(DefaultFunction::AppendByteString),
            11 => Ok(DefaultFunction::ConsByteString),
            12 => Ok(DefaultFunction::SliceByteString),
            13 => Ok(DefaultFunction::LengthOfByteString),
            14 => Ok(DefaultFunction::IndexByteString),
            15 => Ok(DefaultFunction::EqualsByteString),
            16 => Ok(DefaultFunction::LessThanByteString),
            17 => Ok(DefaultFunction::LessThanEqualsByteString),
            18 => Ok(DefaultFunction::Sha2_256),
            19 => Ok(DefaultFunction::Sha3_256),
            20 => Ok(DefaultFunction::Blake2b_256),
            21 => Ok(DefaultFunction::VerifySignature),
            22 => Ok(DefaultFunction::AppendString),
            23 => Ok(DefaultFunction::EqualsString),
            24 => Ok(DefaultFunction::EncodeUtf8),
            25 => Ok(DefaultFunction::DecodeUtf8),
            26 => Ok(DefaultFunction::IfThenElse),
            27 => Ok(DefaultFunction::ChooseUnit),
            28 => Ok(DefaultFunction::Trace),
            29 => Ok(DefaultFunction::FstPair),
            30 => Ok(DefaultFunction::SndPair),
            31 => Ok(DefaultFunction::ChooseList),
            32 => Ok(DefaultFunction::MkCons),
            33 => Ok(DefaultFunction::HeadList),
            34 => Ok(DefaultFunction::TailList),
            35 => Ok(DefaultFunction::NullList),
            36 => Ok(DefaultFunction::ChooseData),
            37 => Ok(DefaultFunction::ConstrData),
            38 => Ok(DefaultFunction::MapData),
            39 => Ok(DefaultFunction::ListData),
            40 => Ok(DefaultFunction::IData),
            41 => Ok(DefaultFunction::BData),
            42 => Ok(DefaultFunction::UnConstrData),
            43 => Ok(DefaultFunction::UnMapData),
            44 => Ok(DefaultFunction::UnListData),
            45 => Ok(DefaultFunction::UnIData),
            46 => Ok(DefaultFunction::UnBData),
            47 => Ok(DefaultFunction::EqualsData),
            48 => Ok(DefaultFunction::MkPairData),
            49 => Ok(DefaultFunction::MkNilData),
            50 => Ok(DefaultFunction::MkNilPairData),
            51 => Ok(DefaultFunction::SerialiseData),
            52 => Ok(DefaultFunction::VerifyEcdsaSecp256k1Signature),
            53 => Ok(DefaultFunction::VerifySchnorrSecp256k1Signature),
            _ => Err(UnknownBuiltinTag(v)),
        }
    }
}

impl vstd::std_specs::convert::TryFromSpecImpl<u8> for DefaultFunction {
    open spec fn obeys_try_from_spec() -> bool {
        true
    }

    open spec fn try_from_spec(v: u8) -> Result<Self, Self::Error> {
        match DefaultFunction::with_tag(v) {
            Some(f) => Ok(f),
            None => Err(UnknownBuiltinTag(v)),
        }
    }
}

} // verus!
