use const_array_map::derive::{
    derive_layout, max_discriminant, parse_repr_attribute, AttributeDesc, DeriveError,
    DeriveInputDesc, EnumRepr, PrimitiveEnumLayout, VariantDesc,
};

fn repr_attr(ident: &str) -> AttributeDesc {
    AttributeDesc {
        path_ident: Some("repr".to_string()),
        is_outer: true,
        list_ident: Some(ident.to_string()),
    }
}

fn plain_attr(name: &str) -> AttributeDesc {
    AttributeDesc { path_ident: Some(name.to_string()), is_outer: true, list_ident: None }
}

fn variants(n: usize) -> Vec<VariantDesc> {
    (0..n).map(|_| VariantDesc { has_explicit_discriminant: false }).collect()
}

fn enum_input(attrs: Vec<AttributeDesc>, vs: Vec<VariantDesc>) -> DeriveInputDesc {
    DeriveInputDesc { is_enum: true, attrs, variants: vs }
}

#[test]
fn derives_layout_for_a_four_variant_u8_enum() {
    let input = enum_input(vec![plain_attr("derive"), repr_attr("u8")], variants(4));
    assert_eq!(
        derive_layout(&input),
        Ok(PrimitiveEnumLayout { repr: EnumRepr::U8, max_variants: 4 })
    );
}

#[test]
fn derives_each_supported_width() {
    for (ident, repr) in [
        ("u8", EnumRepr::U8),
        ("u16", EnumRepr::U16),
        ("u32", EnumRepr::U32),
        ("u64", EnumRepr::U64),
        ("usize", EnumRepr::USize),
    ] {
        let input = enum_input(vec![repr_attr(ident)], variants(3));
        assert_eq!(
            derive_layout(&input),
            Ok(PrimitiveEnumLayout { repr, max_variants: 3 })
        );
    }
}

#[test]
fn rejects_a_type_that_is_not_an_enum() {
    let input = DeriveInputDesc {
        is_enum: false,
        attrs: vec![repr_attr("u8")],
        variants: Vec::new(),
    };
    assert_eq!(derive_layout(&input), Err(DeriveError::NotAnEnum));
}

#[test]
fn rejects_an_enum_without_a_repr_attribute() {
    let input = enum_input(vec![plain_attr("derive")], variants(2));
    assert_eq!(derive_layout(&input), Err(DeriveError::MissingReprAttribute));
}

#[test]
fn rejects_a_repr_attribute_without_a_single_identifier() {
    let malformed = AttributeDesc {
        path_ident: Some("repr".to_string()),
        is_outer: true,
        list_ident: None,
    };
    let input = enum_input(vec![malformed], variants(2));
    assert_eq!(derive_layout(&input), Err(DeriveError::MalformedReprAttribute));
}

#[test]
fn rejects_an_unsupported_representation() {
    let input = enum_input(vec![repr_attr("i32")], variants(2));
    assert_eq!(derive_layout(&input), Err(DeriveError::UnsupportedRepr));
}

#[test]
fn rejects_explicitly_assigned_discriminants() {
    let mut vs = variants(3);
    vs[1].has_explicit_discriminant = true;
    let input = enum_input(vec![repr_attr("u8")], vs);
    assert_eq!(derive_layout(&input), Err(DeriveError::ExplicitDiscriminant));
}

#[test]
fn the_first_outer_repr_attribute_decides() {
    let input = enum_input(vec![repr_attr("u16"), repr_attr("u8")], variants(2));
    assert_eq!(
        derive_layout(&input),
        Ok(PrimitiveEnumLayout { repr: EnumRepr::U16, max_variants: 2 })
    );
}

#[test]
fn an_inner_repr_attribute_is_ignored() {
    let mut inner = repr_attr("u8");
    inner.is_outer = false;
    let attrs = vec![inner, repr_attr("u32")];
    assert_eq!(parse_repr_attribute(&attrs), Ok(EnumRepr::U32));
}

#[test]
fn a_malformed_first_repr_attribute_is_not_skipped() {
    let malformed = AttributeDesc {
        path_ident: Some("repr".to_string()),
        is_outer: true,
        list_ident: None,
    };
    let attrs = vec![malformed, repr_attr("u8")];
    assert_eq!(parse_repr_attribute(&attrs), Err(DeriveError::MalformedReprAttribute));
}

#[test]
fn parse_finds_the_repr_among_other_attributes() {
    let attrs = vec![plain_attr("derive"), plain_attr("doc"), repr_attr("usize")];
    assert_eq!(parse_repr_attribute(&attrs), Ok(EnumRepr::USize));
}

#[test]
fn parse_of_an_empty_attribute_list_reports_the_missing_repr() {
    assert_eq!(
        parse_repr_attribute(&Vec::new()),
        Err(DeriveError::MissingReprAttribute)
    );
}

#[test]
fn max_discriminant_counts_the_variants() {
    assert_eq!(max_discriminant(&variants(1)), Ok(0));
    assert_eq!(max_discriminant(&variants(7)), Ok(6));
}

#[test]
fn max_discriminant_rejects_explicit_values() {
    let mut vs = variants(2);
    vs[0].has_explicit_discriminant = true;
    assert_eq!(max_discriminant(&vs), Err(DeriveError::ExplicitDiscriminant));
}

#[test]
fn repr_idents_round_trip_through_parsing() {
    for repr in [EnumRepr::U8, EnumRepr::U16, EnumRepr::U32, EnumRepr::U64, EnumRepr::USize] {
        let attrs = vec![repr_attr(repr.ident())];
        assert_eq!(parse_repr_attribute(&attrs), Ok(repr));
    }
}

#[test]
fn a_single_variant_enum_gets_one_slot() {
    let input = enum_input(vec![repr_attr("u8")], variants(1));
    assert_eq!(
        derive_layout(&input),
        Ok(PrimitiveEnumLayout { repr: EnumRepr::U8, max_variants: 1 })
    );
}
