use il_runtime::interpreter::metadata::md_token::{CodedToken, MDToken};
use il_runtime::interpreter::metadata::table_kind::{MDTableType, MDType};

#[test]
fn token_is_table_and_rid() {
    let token = MDToken::new(MDTableType::Method, 1).token;
    assert_eq!(token, 0x0600_0001);
    assert_eq!(MDToken::to_rid(token), 1);
    assert_eq!(MDToken::to_table_type(token), 6);
    assert_eq!(MDToken::to_table(token), Some(MDType::Method));
}

#[test]
fn coded_token_decodes_tag_and_rid() {
    let kind = CodedToken::from_md_type(MDType::TypeDefOrRef);
    assert_eq!(kind.bits, 2);
    assert_eq!(kind.decode((5 << 2) | 1), Some(0x0100_0005));
    assert_eq!(kind.decode((5 << 2) | 3), None);
    assert_eq!(kind.encode(0x0100_0005), Some((5 << 2) | 1));
    assert_eq!(kind.encode(0x0600_0005), None);
}

#[test]
fn a_candidate_beyond_the_tag_is_not_coded() {
    let coded = CodedToken::new(
        1,
        vec![
            MDTableType::TypeDef,
            MDTableType::TypeRef,
            MDTableType::TypeSpec,
        ],
    );
    assert_eq!(coded.encode(0x0200_0005), Some((5 << 1) | 0));
    assert_eq!(coded.encode(0x0100_0005), Some((5 << 1) | 1));
    assert_eq!(coded.encode(0x1B00_0005), None);
    assert_eq!(coded.encode(0x0600_0005), None);
    assert_eq!(coded.decode((5 << 1) | 1), Some(0x0100_0005));
}
