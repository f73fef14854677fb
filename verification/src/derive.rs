//! Derivation of a key type's layout descriptor from its declaration.
//!
//! A key-type declaration is handed in as plain data: whether the type is an
//! enum, its attributes, and its variants. Derivation succeeds only for a
//! closed enumeration with an explicit unsigned primitive representation and
//! no explicitly assigned discriminants; it then yields the
//! [`PrimitiveEnumLayout`] descriptor — the representation width and the
//! slot count, one more than the greatest discriminant. Every failure is a
//! generation-time diagnostic, never a runtime error.

use vstd::prelude::*;

verus! {

/// A supported unsigned primitive representation of an enum.
#[derive(Copy, Clone, PartialEq, Eq, Structural, Debug)]
pub enum EnumRepr {
    U8,
    U16,
    U32,
    U64,
    USize,
}

/// Why a layout cannot be derived from a declaration.
#[derive(Copy, Clone, PartialEq, Eq, Structural, Debug)]
pub enum DeriveError {
    /// The declared type is not an enum.
    NotAnEnum,
    /// The enum carries no outer representation attribute.
    MissingReprAttribute,
    /// The representation attribute's argument is not a single identifier.
    MalformedReprAttribute,
    /// The named representation is not a supported unsigned width.
    UnsupportedRepr,
    /// A variant has an explicitly assigned discriminant.
    ExplicitDiscriminant,
}

/// A key type's layout descriptor: the representation type of its
/// discriminants, and the number of slots its domain requires — one more
/// than the greatest discriminant among the enum's variants.
#[derive(Copy, Clone, PartialEq, Eq, Structural, Debug)]
pub struct PrimitiveEnumLayout {
    /// The underlying numerical type used to represent the enum's variants.
    pub repr: EnumRepr,
    /// The number of slots the key domain requires.
    pub max_variants: usize,
}

/// One attribute of a declared type, reduced to what derivation reads.
pub struct AttributeDesc {
    /// The attribute's path, when it is a single identifier.
    pub path_ident: Option<String>,
    /// Whether the attribute is an outer attribute.
    pub is_outer: bool,
    /// The attribute's argument list, when it is a single identifier.
    pub list_ident: Option<String>,
}

/// One variant of a declared enum, reduced to what derivation reads.
#[derive(Copy, Clone, PartialEq, Eq, Structural, Debug)]
pub struct VariantDesc {
    /// Whether the declaration assigns this variant an explicit discriminant.
    pub has_explicit_discriminant: bool,
}

/// A declared type, reduced to what derivation reads.
pub struct DeriveInputDesc {
    /// Whether the declared type is an enum.
    pub is_enum: bool,
    /// The type's attributes, in declaration order.
    pub attrs: Vec<AttributeDesc>,
    /// The enum's variants, in declaration order; empty unless an enum.
    pub variants: Vec<VariantDesc>,
}

/// Whether an attribute is an outer `repr` attribute.
pub open spec fn spec_is_repr_attr(a: AttributeDesc) -> bool {
    &&& a.is_outer
    &&& match a.path_ident {
        Some(p) => p@ == "repr"@,
        None => false,
    }
}

/// The representation a single identifier names, if it is supported.
pub open spec fn spec_repr_of_ident(s: Seq<char>) -> Option<EnumRepr> {
    if s == "u8"@ {
        Some(EnumRepr::U8)
    } else if s == "u16"@ {
        Some(EnumRepr::U16)
    } else if s == "u32"@ {
        Some(EnumRepr::U32)
    } else if s == "u64"@ {
        Some(EnumRepr::U64)
    } else if s == "usize"@ {
        Some(EnumRepr::USize)
    } else {
        None
    }
}

/// What parsing the representation out of an attribute list yields: the
/// first outer `repr` attribute decides, and the list yields an error when
/// no such attribute exists, when its argument is not a single identifier,
/// or when the named representation is unsupported.
pub open spec fn spec_parse_repr_attribute(attrs: Seq<AttributeDesc>) -> Result<
    EnumRepr,
    DeriveError,
>
    decreases attrs.len(),
{
    if attrs.len() == 0 {
        Err(DeriveError::MissingReprAttribute)
    } else if spec_is_repr_attr(attrs[0]) {
        match attrs[0].list_ident {
            None => Err(DeriveError::MalformedReprAttribute),
            Some(id) => match spec_repr_of_ident(id@) {
                Some(r) => Ok(r),
                None => Err(DeriveError::UnsupportedRepr),
            },
        }
    } else {
        spec_parse_repr_attribute(attrs.skip(1))
    }
}

/// Whether any variant carries an explicitly assigned discriminant.
pub open spec fn spec_has_explicit_discriminant(vs: Seq<VariantDesc>) -> bool {
    exists|j: int| 0 <= j < vs.len() && vs[j].has_explicit_discriminant
}

/// What derivation yields for a declaration: the layout descriptor for an
/// enum with a supported representation and implicit sequential numbering,
/// and the reason for rejection otherwise.
pub open spec fn spec_derive_layout(input: DeriveInputDesc) -> Result<
    PrimitiveEnumLayout,
    DeriveError,
> {
    if !input.is_enum {
        Err(DeriveError::NotAnEnum)
    } else {
        match spec_parse_repr_attribute(input.attrs@) {
            Err(e) => Err(e),
            Ok(repr) => {
                if spec_has_explicit_discriminant(input.variants@) {
                    Err(DeriveError::ExplicitDiscriminant)
                } else {
                    Ok(
                        PrimitiveEnumLayout {
                            repr,
                            max_variants: input.variants@.len() as usize,
                        },
                    )
                }
            },
        }
    }
}

/// Finds the representation named by the first outer `repr` attribute.
pub fn parse_repr_attribute(attrs: &Vec<AttributeDesc>) -> (r: Result<EnumRepr, DeriveError>)
    ensures
        r == spec_parse_repr_attribute(attrs@),
{
    let repr_name: String = "repr".to_owned();
    let n = attrs.len();
    proof {
        assert(attrs@.skip(0) =~= attrs@);
    }
    for j in 0..n
        invariant
            n == attrs@.len(),
            spec_parse_repr_attribute(attrs@) == spec_parse_repr_attribute(attrs@.skip(j as int)),
            repr_name@ == "repr"@,
    {
        let a = &attrs[j];
        let is_repr = a.is_outer && match &a.path_ident {
            Some(p) => *p == repr_name,
            None => false,
        };
        proof {
            assert(attrs@.skip(j as int)[0] == attrs@[j as int]);
            assert(attrs@.skip(j as int).skip(1) =~= attrs@.skip(j + 1));
        }
        if is_repr {
            match &a.list_ident {
                None => {
                    return Err(DeriveError::MalformedReprAttribute);
                },
                Some(id) => {
                    return match repr_of_ident(id) {
                        Some(r) => Ok(r),
                        None => Err(DeriveError::UnsupportedRepr),
                    };
                },
            }
        }
    }
    proof {
        assert(attrs@.skip(n as int).len() == 0);
    }
    Err(DeriveError::MissingReprAttribute)
}

/// Matches an identifier against the supported representation names.
fn repr_of_ident(id: &String) -> (r: Option<EnumRepr>)
    ensures
        r == spec_repr_of_ident(id@),
{
    if *id == "u8".to_owned() {
        Some(EnumRepr::U8)
    } else if *id == "u16".to_owned() {
        Some(EnumRepr::U16)
    } else if *id == "u32".to_owned() {
        Some(EnumRepr::U32)
    } else if *id == "u64".to_owned() {
        Some(EnumRepr::U64)
    } else if *id == "usize".to_owned() {
        Some(EnumRepr::USize)
    } else {
        None
    }
}

/// The greatest discriminant among the variants — their count less one,
/// since explicit assignments are rejected and implicit numbering is
/// sequential from zero.
pub fn max_discriminant(variants: &Vec<VariantDesc>) -> (r: Result<usize, DeriveError>)
    requires
        variants@.len() >= 1,
    ensures
        r == if spec_has_explicit_discriminant(variants@) {
            Err::<usize, DeriveError>(DeriveError::ExplicitDiscriminant)
        } else {
            Ok::<usize, DeriveError>((variants@.len() - 1) as usize)
        },
{
    let n = variants.len();
    for j in 0..n
        invariant
            n == variants@.len(),
            forall|l: int| #![trigger variants@[l]] 0 <= l < j
                ==> !variants@[l].has_explicit_discriminant,
    {
        if variants[j].has_explicit_discriminant {
            proof {
                assert(variants@[j as int].has_explicit_discriminant);
            }
            return Err(DeriveError::ExplicitDiscriminant);
        }
    }
    Ok(variants.len() - 1)
}

/// Derives the layout descriptor of a declared key type, or the reason no
/// layout exists for it: the type is no enum, it names no representation,
/// the representation attribute is malformed or unsupported, or a variant's
/// discriminant is explicitly assigned.
pub fn derive_layout(input: &DeriveInputDesc) -> (r: Result<PrimitiveEnumLayout, DeriveError>)
    requires
        input.is_enum ==> input.variants@.len() >= 1,
    ensures
        r == spec_derive_layout(*input),
{
    if !input.is_enum {
        return Err(DeriveError::NotAnEnum);
    }
    let repr = match parse_repr_attribute(&input.attrs) {
        Ok(repr) => repr,
        Err(e) => {
            return Err(e);
        },
    };
    let max = match max_discriminant(&input.variants) {
        Ok(max) => max,
        Err(e) => {
            return Err(e);
        },
    };
    let count = input.variants.len();
    proof {
        assert(max as int == count as int - 1);
    }
    Ok(PrimitiveEnumLayout { repr, max_variants: max + 1 })
}

impl EnumRepr {
    /// The identifier that names this representation; parsing it yields this
    /// representation back.
    pub fn ident(self) -> (s: &'static str)
        ensures
            spec_repr_of_ident(s@) == Some(self),
    {
        proof {
            reveal_strlit("u8");
            reveal_strlit("u16");
            reveal_strlit("u32");
            reveal_strlit("u64");
            reveal_strlit("usize");
            assert("u8"@.len() == 2 && "u16"@.len() == 3 && "u32"@.len() == 3 && "u64"@.len() == 3
                && "usize"@.len() == 5);
            assert("u16"@[1] == '1' && "u32"@[1] == '3' && "u64"@[1] == '6');
            assert("u16"@ != "u8"@);
            assert("u32"@ != "u8"@ && "u32"@ != "u16"@);
            assert("u64"@ != "u8"@ && "u64"@ != "u16"@ && "u64"@ != "u32"@);
            assert("usize"@ != "u8"@ && "usize"@ != "u16"@ && "usize"@ != "u32"@ && "usize"@
                != "u64"@);
        }
        match self {
            EnumRepr::U8 => "u8",
            EnumRepr::U16 => "u16",
            EnumRepr::U32 => "u32",
            EnumRepr::U64 => "u64",
            EnumRepr::USize => "usize",
        }
    }
}

} // verus!
