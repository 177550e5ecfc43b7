//! Registry of the known CIC variants: the single source of truth for each
//! variant's constants and for resolution by fingerprint, name, alias or
//! numeric model id.

use vstd::prelude::*;
use vstd::wrapping::u32_specs;

use crate::error::Ipl3ChecksumError;
use crate::utils;

verus! {

/// One of the known CIC variants. `CIC_6102_7101`, `CIC_X103`, `CIC_X105` and
/// `CIC_X106` each stand for two chip model numbers that run the same boot
/// code.
#[derive(Clone, Copy, Debug, Hash, PartialEq, Eq, Structural)]
#[allow(non_camel_case_types)]
pub enum CICKind {
    CIC_6101,
    CIC_6102_7101,
    CIC_7102,
    CIC_X103,
    CIC_X105,
    CIC_X106,
    CIC_5101,
}

/// The per-variant seed the checksum engine derives its initial accumulator
/// value from.
pub open spec fn spec_seed(kind: CICKind) -> u32 {
    match kind {
        CICKind::CIC_6101 => 0x3F,
        CICKind::CIC_6102_7101 => 0x3F,
        CICKind::CIC_7102 => 0x3F,
        CICKind::CIC_X103 => 0x78,
        CICKind::CIC_X105 => 0x91,
        CICKind::CIC_X106 => 0x85,
        CICKind::CIC_5101 => 0xAC,
    }
}

/// The per-variant multiplicative constant the checksum engine derives its
/// initial accumulator value from.
pub open spec fn spec_magic(kind: CICKind) -> u32 {
    match kind {
        CICKind::CIC_6101 => 0x5D588B65,
        CICKind::CIC_6102_7101 => 0x5D588B65,
        CICKind::CIC_7102 => 0x5D588B65,
        CICKind::CIC_X103 => 0x6C078965,
        CICKind::CIC_X105 => 0x5D588B65,
        CICKind::CIC_X106 => 0x6C078965,
        CICKind::CIC_5101 => 0x6C078965,
    }
}

/// The 32 lowercase hexadecimal digits of the MD5 digest of the variant's
/// exact 0xFC0-byte boot code.
pub open spec fn spec_fingerprint(kind: CICKind) -> Seq<char> {
    match kind {
        CICKind::CIC_6101 => "900b4a5b68edb71f4c7ed52acd814fc5"@,
        CICKind::CIC_6102_7101 => "e24dd796b2fa16511521139d28c8356b"@,
        CICKind::CIC_7102 => "955894c2e40a698bf98a67b78a4e28fa"@,
        CICKind::CIC_X103 => "319038097346e12c26c3c21b56f86f23"@,
        CICKind::CIC_X105 => "ff22a296e55d34ab0a077dc2ba5f5796"@,
        CICKind::CIC_X106 => "6460387749ac0bd925aa5430bc7864fe"@,
        CICKind::CIC_5101 => "711f8c3ac54fc70a42626bf6c171443d"@,
    }
}

/// The variant whose boot-code fingerprint is `hash`, if any.
pub open spec fn spec_kind_from_hash(hash: Seq<char>) -> Option<CICKind> {
    if hash == "900b4a5b68edb71f4c7ed52acd814fc5"@ {
        Some(CICKind::CIC_6101)
    } else if hash == "e24dd796b2fa16511521139d28c8356b"@ {
        Some(CICKind::CIC_6102_7101)
    } else if hash == "955894c2e40a698bf98a67b78a4e28fa"@ {
        Some(CICKind::CIC_7102)
    } else if hash == "319038097346e12c26c3c21b56f86f23"@ {
        Some(CICKind::CIC_X103)
    } else if hash == "ff22a296e55d34ab0a077dc2ba5f5796"@ {
        Some(CICKind::CIC_X105)
    } else if hash == "6460387749ac0bd925aa5430bc7864fe"@ {
        Some(CICKind::CIC_X106)
    } else if hash == "711f8c3ac54fc70a42626bf6c171443d"@ {
        Some(CICKind::CIC_5101)
    } else {
        None
    }
}

/// The variant's canonical name.
pub open spec fn spec_name(kind: CICKind) -> Seq<char> {
    match kind {
        CICKind::CIC_6101 => "CIC_6101"@,
        CICKind::CIC_6102_7101 => "CIC_6102_7101"@,
        CICKind::CIC_7102 => "CIC_7102"@,
        CICKind::CIC_X103 => "CIC_X103"@,
        CICKind::CIC_X105 => "CIC_X105"@,
        CICKind::CIC_X106 => "CIC_X106"@,
        CICKind::CIC_5101 => "CIC_5101"@,
    }
}

/// The variant whose canonical name or alias is `name`, if any; matching is
/// case-sensitive.
pub open spec fn spec_kind_from_name(name: Seq<char>) -> Option<CICKind> {
    if name == "CIC_6101"@ || name == "6101"@ {
        Some(CICKind::CIC_6101)
    } else if name == "CIC_6102_7101"@ || name == "CIC_6102"@ || name == "CIC_7101"@ || name
        == "6102_7101"@ || name == "6102"@ || name == "7101"@ {
        Some(CICKind::CIC_6102_7101)
    } else if name == "CIC_7102"@ || name == "7102"@ {
        Some(CICKind::CIC_7102)
    } else if name == "CIC_X103"@ || name == "CIC_6103"@ || name == "CIC_7103"@ || name == "X103"@
        || name == "6103"@ || name == "7103"@ {
        Some(CICKind::CIC_X103)
    } else if name == "CIC_X105"@ || name == "CIC_6105"@ || name == "CIC_7105"@ || name == "X105"@
        || name == "6105"@ || name == "7105"@ {
        Some(CICKind::CIC_X105)
    } else if name == "CIC_X106"@ || name == "CIC_6106"@ || name == "CIC_7106"@ || name == "X106"@
        || name == "6106"@ || name == "7106"@ {
        Some(CICKind::CIC_X106)
    } else if name == "CIC_5101"@ || name == "5101"@ {
        Some(CICKind::CIC_5101)
    } else {
        None
    }
}

/// Every name or alias that `CICKind::from_name` accepts, in presentation
/// order.
pub open spec fn spec_valid_names() -> Seq<Seq<char>> {
    seq![
        "CIC_6101"@,
        "6101"@,
        "CIC_6102_7101"@,
        "CIC_6102"@,
        "CIC_7101"@,
        "6102_7101"@,
        "6102"@,
        "7101"@,
        "CIC_7102"@,
        "7102"@,
        "CIC_X103"@,
        "CIC_6103"@,
        "CIC_7103"@,
        "X103"@,
        "6103"@,
        "7103"@,
        "CIC_X105"@,
        "CIC_6105"@,
        "CIC_7105"@,
        "X105"@,
        "6105"@,
        "7105"@,
        "CIC_X106"@,
        "CIC_6106"@,
        "CIC_7106"@,
        "X106"@,
        "6106"@,
        "7106"@,
        "CIC_5101"@,
        "5101"@,
    ]
}

/// The variant for a bare chip model number, if any; numbers shared by two
/// physical chips resolve to the one variant both run.
pub open spec fn spec_kind_from_value(value: usize) -> Option<CICKind> {
    if value == 6101 {
        Some(CICKind::CIC_6101)
    } else if value == 6102 || value == 7101 {
        Some(CICKind::CIC_6102_7101)
    } else if value == 7102 {
        Some(CICKind::CIC_7102)
    } else if value == 6103 || value == 7103 {
        Some(CICKind::CIC_X103)
    } else if value == 6105 || value == 7105 {
        Some(CICKind::CIC_X105)
    } else if value == 6106 || value == 7106 {
        Some(CICKind::CIC_X106)
    } else if value == 5101 {
        Some(CICKind::CIC_5101)
    } else {
        None
    }
}

/// The entrypoint address the variant actually uses: the raw header word for
/// most variants, a fixed subtraction (wrapping) for the two variants whose
/// boot code relocates the entrypoint.
pub open spec fn spec_adjusted_entrypoint(kind: CICKind, header_entrypoint: u32) -> u32 {
    if kind == CICKind::CIC_X103 {
        u32_specs::wrapping_sub(header_entrypoint, 0x100000)
    } else if kind == CICKind::CIC_X106 {
        u32_specs::wrapping_sub(header_entrypoint, 0x200000)
    } else {
        header_entrypoint
    }
}

impl CICKind {
    /// The seed constant of this variant.
    pub fn get_seed(&self) -> (r: u32)
        ensures
            r == spec_seed(*self),
    {
        match self {
            Self::CIC_6101 | Self::CIC_6102_7101 | Self::CIC_7102 => 0x3F,
            Self::CIC_X103 => 0x78,
            Self::CIC_X105 => 0x91,
            Self::CIC_X106 => 0x85,
            Self::CIC_5101 => 0xAC,
        }
    }

    /// The multiplicative constant of this variant.
    pub fn get_magic(&self) -> (r: u32)
        ensures
            r == spec_magic(*self),
    {
        match self {
            Self::CIC_6101 | Self::CIC_6102_7101 | Self::CIC_7102 | Self::CIC_X105 => 0x5D588B65,
            Self::CIC_X103 | Self::CIC_X106 | Self::CIC_5101 => 0x6C078965,
        }
    }

    /// The MD5 fingerprint of this variant's boot code, as 32 lowercase
    /// hexadecimal digits.
    pub fn get_hash_md5(&self) -> (r: &'static str)
        ensures
            r@ == spec_fingerprint(*self),
    {
        match self {
            Self::CIC_6101 => "900b4a5b68edb71f4c7ed52acd814fc5",
            Self::CIC_6102_7101 => "e24dd796b2fa16511521139d28c8356b",
            Self::CIC_7102 => "955894c2e40a698bf98a67b78a4e28fa",
            Self::CIC_X103 => "319038097346e12c26c3c21b56f86f23",
            Self::CIC_X105 => "ff22a296e55d34ab0a077dc2ba5f5796",
            Self::CIC_X106 => "6460387749ac0bd925aa5430bc7864fe",
            Self::CIC_5101 => "711f8c3ac54fc70a42626bf6c171443d",
        }
    }

    /// Resolves a boot-code fingerprint to its variant; fails exactly when no
    /// known variant has that fingerprint, carrying the unrecognized
    /// fingerprint back.
    pub fn from_hash_md5(hash_str: &str) -> (r: Result<Self, Ipl3ChecksumError>)
        ensures
            match spec_kind_from_hash(hash_str@) {
                Some(kind) => r == Ok::<CICKind, Ipl3ChecksumError>(kind),
                None => r matches Err(Ipl3ChecksumError::UnrecognizedFingerprint { fingerprint })
                    && fingerprint@ == hash_str@,
            },
    {
        if utils::str_eq(hash_str, "900b4a5b68edb71f4c7ed52acd814fc5") {
            Ok(Self::CIC_6101)
        } else if utils::str_eq(hash_str, "e24dd796b2fa16511521139d28c8356b") {
            Ok(Self::CIC_6102_7101)
        } else if utils::str_eq(hash_str, "955894c2e40a698bf98a67b78a4e28fa") {
            Ok(Self::CIC_7102)
        } else if utils::str_eq(hash_str, "319038097346e12c26c3c21b56f86f23") {
            Ok(Self::CIC_X103)
        } else if utils::str_eq(hash_str, "ff22a296e55d34ab0a077dc2ba5f5796") {
            Ok(Self::CIC_X105)
        } else if utils::str_eq(hash_str, "6460387749ac0bd925aa5430bc7864fe") {
            Ok(Self::CIC_X106)
        } else if utils::str_eq(hash_str, "711f8c3ac54fc70a42626bf6c171443d") {
            Ok(Self::CIC_5101)
        } else {
            Err(Ipl3ChecksumError::UnrecognizedFingerprint { fingerprint: hash_str.to_owned() })
        }
    }

    /// The canonical name of this variant.
    pub fn get_name(&self) -> (r: &'static str)
        ensures
            r@ == spec_name(*self),
    {
        match self {
            Self::CIC_6101 => "CIC_6101",
            Self::CIC_6102_7101 => "CIC_6102_7101",
            Self::CIC_7102 => "CIC_7102",
            Self::CIC_X103 => "CIC_X103",
            Self::CIC_X105 => "CIC_X105",
            Self::CIC_X106 => "CIC_X106",
            Self::CIC_5101 => "CIC_5101",
        }
    }

    /// Resolves a canonical name or alias, case-sensitively; fails exactly
    /// when the string is none of the listed names.
    pub fn from_name(name: &str) -> (r: Result<Self, Ipl3ChecksumError>)
        ensures
            match spec_kind_from_name(name@) {
                Some(kind) => r == Ok::<CICKind, Ipl3ChecksumError>(kind),
                None => r == Err::<CICKind, Ipl3ChecksumError>(
                    Ipl3ChecksumError::NameOrIdNotFound,
                ),
            },
    {
        if utils::str_eq(name, "CIC_6101") || utils::str_eq(name, "6101") {
            Ok(Self::CIC_6101)
        } else if utils::str_eq(name, "CIC_6102_7101") || utils::str_eq(name, "CIC_6102")
            || utils::str_eq(name, "CIC_7101") || utils::str_eq(name, "6102_7101")
            || utils::str_eq(name, "6102") || utils::str_eq(name, "7101") {
            Ok(Self::CIC_6102_7101)
        } else if utils::str_eq(name, "CIC_7102") || utils::str_eq(name, "7102") {
            Ok(Self::CIC_7102)
        } else if utils::str_eq(name, "CIC_X103") || utils::str_eq(name, "CIC_6103")
            || utils::str_eq(name, "CIC_7103") || utils::str_eq(name, "X103") || utils::str_eq(
            name,
            "6103",
        ) || utils::str_eq(name, "7103") {
            Ok(Self::CIC_X103)
        } else if utils::str_eq(name, "CIC_X105") || utils::str_eq(name, "CIC_6105")
            || utils::str_eq(name, "CIC_7105") || utils::str_eq(name, "X105") || utils::str_eq(
            name,
            "6105",
        ) || utils::str_eq(name, "7105") {
            Ok(Self::CIC_X105)
        } else if utils::str_eq(name, "CIC_X106") || utils::str_eq(name, "CIC_6106")
            || utils::str_eq(name, "CIC_7106") || utils::str_eq(name, "X106") || utils::str_eq(
            name,
            "6106",
        ) || utils::str_eq(name, "7106") {
            Ok(Self::CIC_X106)
        } else if utils::str_eq(name, "CIC_5101") || utils::str_eq(name, "5101") {
            Ok(Self::CIC_5101)
        } else {
            Err(Ipl3ChecksumError::NameOrIdNotFound)
        }
    }

    /// Every name or alias `from_name` accepts.
    pub fn valid_names() -> (r: Vec<&'static str>)
        ensures
            r.deep_view() == spec_valid_names(),
    {
        let mut names: Vec<&'static str> = Vec::new();
        names.push("CIC_6101");
        names.push("6101");
        names.push("CIC_6102_7101");
        names.push("CIC_6102");
        names.push("CIC_7101");
        names.push("6102_7101");
        names.push("6102");
        names.push("7101");
        names.push("CIC_7102");
        names.push("7102");
        names.push("CIC_X103");
        names.push("CIC_6103");
        names.push("CIC_7103");
        names.push("X103");
        names.push("6103");
        names.push("7103");
        names.push("CIC_X105");
        names.push("CIC_6105");
        names.push("CIC_7105");
        names.push("X105");
        names.push("6105");
        names.push("7105");
        names.push("CIC_X106");
        names.push("CIC_6106");
        names.push("CIC_7106");
        names.push("X106");
        names.push("6106");
        names.push("7106");
        names.push("CIC_5101");
        names.push("5101");
        proof {
            assert(names.deep_view() =~~= spec_valid_names());
        }
        names
    }

    /// Resolves a bare chip model number; fails exactly when the number is
    /// not a known model.
    pub fn from_value(value: usize) -> (r: Result<Self, Ipl3ChecksumError>)
        ensures
            match spec_kind_from_value(value) {
                Some(kind) => r == Ok::<CICKind, Ipl3ChecksumError>(kind),
                None => r == Err::<CICKind, Ipl3ChecksumError>(
                    Ipl3ChecksumError::NameOrIdNotFound,
                ),
            },
    {
        match value {
            6101 => Ok(Self::CIC_6101),
            6102 | 7101 => Ok(Self::CIC_6102_7101),
            7102 => Ok(Self::CIC_7102),
            6103 | 7103 => Ok(Self::CIC_X103),
            6105 | 7105 => Ok(Self::CIC_X105),
            6106 | 7106 => Ok(Self::CIC_X106),
            5101 => Ok(Self::CIC_5101),
            _ => Err(Ipl3ChecksumError::NameOrIdNotFound),
        }
    }

    /// The entrypoint address this variant actually uses, given the raw
    /// entrypoint word from the ROM header.
    pub fn get_entrypoint(&self, header_entrypoint: u32) -> (r: u32)
        ensures
            r == spec_adjusted_entrypoint(*self, header_entrypoint),
    {
        match self {
            Self::CIC_X103 => header_entrypoint.wrapping_sub(0x100000),
            Self::CIC_X106 => header_entrypoint.wrapping_sub(0x200000),
            _ => header_entrypoint,
        }
    }
}

/// Resolving the boot-code fingerprint of any known variant yields exactly
/// that variant: the fingerprint table and the fingerprint lookup agree.
pub proof fn lemma_fingerprint_round_trip(kind: CICKind)
    ensures
        spec_kind_from_hash(spec_fingerprint(kind)) == Some(kind),
{
    reveal_strlit("900b4a5b68edb71f4c7ed52acd814fc5");
    reveal_strlit("e24dd796b2fa16511521139d28c8356b");
    reveal_strlit("955894c2e40a698bf98a67b78a4e28fa");
    reveal_strlit("319038097346e12c26c3c21b56f86f23");
    reveal_strlit("ff22a296e55d34ab0a077dc2ba5f5796");
    reveal_strlit("6460387749ac0bd925aa5430bc7864fe");
    reveal_strlit("711f8c3ac54fc70a42626bf6c171443d");
    // Pin one character of each fingerprint (two where the first characters
    // coincide), so that the lookup's earlier branches are decidably false.
    assert(("900b4a5b68edb71f4c7ed52acd814fc5"@)[0] == '9');
    assert(("900b4a5b68edb71f4c7ed52acd814fc5"@)[1] == '0');
    assert(("e24dd796b2fa16511521139d28c8356b"@)[0] == 'e');
    assert(("955894c2e40a698bf98a67b78a4e28fa"@)[0] == '9');
    assert(("955894c2e40a698bf98a67b78a4e28fa"@)[1] == '5');
    assert(("319038097346e12c26c3c21b56f86f23"@)[0] == '3');
    assert(("ff22a296e55d34ab0a077dc2ba5f5796"@)[0] == 'f');
    assert(("6460387749ac0bd925aa5430bc7864fe"@)[0] == '6');
    assert(("711f8c3ac54fc70a42626bf6c171443d"@)[0] == '7');
}

/// No two distinct variants share a boot-code fingerprint: the mapping from
/// fingerprint to variant is injective over the known variants.
pub proof fn lemma_fingerprints_injective(kind1: CICKind, kind2: CICKind)
    requires
        spec_fingerprint(kind1) == spec_fingerprint(kind2),
    ensures
        kind1 == kind2,
{
    lemma_fingerprint_round_trip(kind1);
    lemma_fingerprint_round_trip(kind2);
}

/// `valid_names` lists exactly the strings `from_name` resolves: a name is
/// accepted if and only if it stands in the list.
pub proof fn lemma_valid_names_exact()
    ensures
        forall|name: Seq<char>|
            spec_kind_from_name(name) is Some <==> spec_valid_names().contains(name),
{
    assert forall|name: Seq<char>|
        spec_kind_from_name(name) is Some <==> spec_valid_names().contains(name) by {
        if spec_kind_from_name(name) is Some {
            if name == "CIC_6101"@ {
                assert(spec_valid_names()[0] == name);
            } else if name == "6101"@ {
                assert(spec_valid_names()[1] == name);
            } else if name == "CIC_6102_7101"@ {
                assert(spec_valid_names()[2] == name);
            } else if name == "CIC_6102"@ {
                assert(spec_valid_names()[3] == name);
            } else if name == "CIC_7101"@ {
                assert(spec_valid_names()[4] == name);
            } else if name == "6102_7101"@ {
                assert(spec_valid_names()[5] == name);
            } else if name == "6102"@ {
                assert(spec_valid_names()[6] == name);
            } else if name == "7101"@ {
                assert(spec_valid_names()[7] == name);
            } else if name == "CIC_7102"@ {
                assert(spec_valid_names()[8] == name);
            } else if name == "7102"@ {
                assert(spec_valid_names()[9] == name);
            } else if name == "CIC_X103"@ {
                assert(spec_valid_names()[10] == name);
            } else if name == "CIC_6103"@ {
                assert(spec_valid_names()[11] == name);
            } else if name == "CIC_7103"@ {
                assert(spec_valid_names()[12] == name);
            } else if name == "X103"@ {
                assert(spec_valid_names()[13] == name);
            } else if name == "6103"@ {
                assert(spec_valid_names()[14] == name);
            } else if name == "7103"@ {
                assert(spec_valid_names()[15] == name);
            } else if name == "CIC_X105"@ {
                assert(spec_valid_names()[16] == name);
            } else if name == "CIC_6105"@ {
                assert(spec_valid_names()[17] == name);
            } else if name == "CIC_7105"@ {
                assert(spec_valid_names()[18] == name);
            } else if name == "X105"@ {
                assert(spec_valid_names()[19] == name);
            } else if name == "6105"@ {
                assert(spec_valid_names()[20] == name);
            } else if name == "7105"@ {
                assert(spec_valid_names()[21] == name);
            } else if name == "CIC_X106"@ {
                assert(spec_valid_names()[22] == name);
            } else if name == "CIC_6106"@ {
                assert(spec_valid_names()[23] == name);
            } else if name == "CIC_7106"@ {
                assert(spec_valid_names()[24] == name);
            } else if name == "X106"@ {
                assert(spec_valid_names()[25] == name);
            } else if name == "6106"@ {
                assert(spec_valid_names()[26] == name);
            } else if name == "7106"@ {
                assert(spec_valid_names()[27] == name);
            } else if name == "CIC_5101"@ {
                assert(spec_valid_names()[28] == name);
            } else {
                assert(name == "5101"@);
                assert(spec_valid_names()[29] == name);
            }
            assert(spec_valid_names().contains(name));
        }
        if spec_valid_names().contains(name) {
            let i = choose|i: int|
                0 <= i < spec_valid_names().len() && spec_valid_names()[i] == name;
            assert(spec_kind_from_name(spec_valid_names()[i]) is Some);
        }
    }
}

} // verus!
