use ber_pretty::{BerObject, BerObjectContent, BitStringObject, Class, PrettyPrinterFlag};

#[test]
fn test_pretty_print() {
    let d = BerObject::from_obj(BerObjectContent::Sequence(vec![
        BerObject::from_int_slice(b"\x01\x00\x01"),
        BerObject::from_int_slice(b"\x01\x00\x01"),
        BerObject::from_obj(BerObjectContent::SetOf(vec![
            BerObject::from_int_slice(b"\x01"),
            BerObject::from_int_slice(b"\x02"),
        ])),
    ]));

    println!("{}", d.as_pretty(0, 2).to_text());

    let mut pp = d.as_pretty(0, 4);
    pp.set_flag(PrettyPrinterFlag::ShowHeader);
    println!("{}", pp.to_text());
}

#[test]
fn nested_sequence_and_set() {
    let d = BerObject::from_obj(BerObjectContent::Sequence(vec![
        BerObject::from_int_slice(b"\x01\x00\x01"),
        BerObject::from_int_slice(b"\x01\x00\x01"),
        BerObject::from_obj(BerObjectContent::SetOf(vec![
            BerObject::from_int_slice(b"\x01"),
            BerObject::from_int_slice(b"\x02"),
        ])),
    ]));
    let expected = "Sequence[\n\
                    \x20\x20Integer([01 00 01])\n\
                    \x20\x20Integer([01 00 01])\n\
                    \x20\x20Set[\n\
                    \x20\x20\x20\x20Integer([01])\n\
                    \x20\x20\x20\x20Integer([02])\n\
                    \x20\x20]\n\
                    ]\n";
    assert_eq!(d.as_pretty(0, 2).to_text(), expected);
}

#[test]
fn header_flag_prefixes_lines() {
    let d = BerObject::from_obj(BerObjectContent::Sequence(vec![
        BerObject::from_int_slice(b"\x01"),
    ]));
    let mut pp = d.as_pretty(0, 4);
    pp.set_flag(PrettyPrinterFlag::ShowHeader);
    let expected = "[c:Universal, s:true, t:Sequence] Sequence[\n\
                    \x20\x20\x20\x20[c:Universal, s:false, t:Integer] Integer([01])\n\
                    ]\n";
    assert_eq!(pp.to_text(), expected);
}

#[test]
fn set_flag_is_idempotent() {
    let d = BerObject::from_obj(BerObjectContent::Null);
    let mut pp = d.as_pretty(0, 2);
    pp.set_flag(PrettyPrinterFlag::ShowHeader);
    let once = pp.to_text();
    pp.set_flag(PrettyPrinterFlag::ShowHeader);
    assert_eq!(pp.to_text(), once);
}

#[test]
fn derive_after_enabling_carries_flag() {
    let inner = BerObject::from_int_slice(b"\x05");
    let d = BerObject::from_obj(BerObjectContent::Null);
    let mut parent = d.as_pretty(0, 2);
    let child_before = parent.next_indent(&inner);
    parent.set_flag(PrettyPrinterFlag::ShowHeader);
    let child_after = parent.next_indent(&inner);
    assert_eq!(child_before.to_text(), "  Integer([05])\n");
    assert_eq!(
        child_after.to_text(),
        "  [c:Universal, s:false, t:Integer] Integer([05])\n"
    );
}

#[test]
fn indentation_prefixes_output() {
    let d = BerObject::from_obj(BerObjectContent::Null);
    assert_eq!(d.as_pretty(0, 2).to_text(), "Null\n");
    assert_eq!(d.as_pretty(3, 2).to_text(), "   Null\n");
}

#[test]
fn primitive_leaves() {
    let cases: Vec<(BerObjectContent, &str)> = vec![
        (BerObjectContent::EndOfContent, "EndOfContent\n"),
        (BerObjectContent::Boolean(true), "Boolean(true)\n"),
        (BerObjectContent::Boolean(false), "Boolean(false)\n"),
        (BerObjectContent::Enum(98), "Enum(98)\n"),
        (BerObjectContent::Null, "Null\n"),
        (BerObjectContent::Integer(vec![]), "Integer([])\n"),
        (
            BerObjectContent::OctetString(vec![0xAA, 0x00, 0xFF]),
            "OctetString([aa 00 ff])\n",
        ),
        (
            BerObjectContent::BitString(4, BitStringObject { data: vec![0xAB] }),
            "BitString(4,[ab])\n",
        ),
        (
            BerObjectContent::GeneralizedTime(String::from("20240101000000Z")),
            "GeneralizedTime(\"20240101000000Z\")\n",
        ),
        (
            BerObjectContent::UTCTime(String::from("9901010000Z")),
            "UTCTime(\"9901010000Z\")\n",
        ),
        (
            BerObjectContent::VisibleString(String::from("vis")),
            "VisibleString(\"vis\")\n",
        ),
        (
            BerObjectContent::PrintableString(String::from("pr")),
            "PrintableString(\"pr\")\n",
        ),
        (
            BerObjectContent::T61String(String::from("t61")),
            "T61String(t61)\n",
        ),
        (
            BerObjectContent::VideotexString(String::from("vtx")),
            "VideotexString(vtx)\n",
        ),
        (
            BerObjectContent::UTF8String(String::from("utf8")),
            "UTF8String(\"utf8\")\n",
        ),
        (
            BerObjectContent::ObjectDescriptor(String::from("od")),
            "ObjectDescriptor(\"od\")\n",
        ),
        (
            BerObjectContent::BmpString(String::from("bmp")),
            "BmpString(\"bmp\")\n",
        ),
    ];
    for (content, expected) in cases {
        let d = BerObject::from_obj(content);
        assert_eq!(d.as_pretty(0, 2).to_text(), expected);
    }
}

#[test]
fn oid_renders_through_dotted_form() {
    let d = BerObject::from_obj(BerObjectContent::OID(vec![0x2A, 0x03]));
    assert_eq!(d.as_pretty(0, 2).to_text(), "OID(OID(1.2.3))\n");
    let r = BerObject::from_obj(BerObjectContent::RelativeOID(vec![0x03]));
    assert_eq!(r.as_pretty(0, 2).to_text(), "RelativeOID(OID(rel. 3))\n");
}

#[test]
fn unknown_renders_class_tag_and_bytes() {
    let d = BerObject::from_obj(BerObjectContent::Unknown(Class::Private, 31, vec![0xAB]));
    assert_eq!(d.as_pretty(0, 2).to_text(), "Unknown([PRIVATE 31] [ab])\n");
}

#[test]
fn universal_string_decodes_complete_groups() {
    let d = BerObject::from_obj(BerObjectContent::UniversalString(vec![
        0, 0, 0, 0x61, 0, 0, 0, 0x62,
    ]));
    assert_eq!(d.as_pretty(0, 2).to_text(), "UniversalString(\"ab\")\n");
    // A trailing incomplete group is dropped.
    let t = BerObject::from_obj(BerObjectContent::UniversalString(vec![
        0, 0, 0, 0x61, 0, 0, 0, 0x62, 0, 0,
    ]));
    assert_eq!(t.as_pretty(0, 2).to_text(), "UniversalString(\"ab\")\n");
    let e = BerObject::from_obj(BerObjectContent::UniversalString(vec![]));
    assert_eq!(e.as_pretty(0, 2).to_text(), "UniversalString(\"\")\n");
}

#[test]
fn universal_string_falls_back_on_bad_group() {
    // 0x0000D800 is a surrogate, not a Unicode scalar value.
    let d = BerObject::from_obj(BerObjectContent::UniversalString(vec![
        0, 0, 0, 0x61, 0, 0, 0xD8, 0,
    ]));
    assert_eq!(
        d.as_pretty(0, 2).to_text(),
        "UniversalString([0, 0, 0, 97, 0, 0, 216, 0]) <error decoding utf32 string>\n"
    );
}

#[test]
fn tagged_wraps_inner_rendering() {
    let inner = BerObject::from_int_slice(b"\x01");
    let d = BerObject::from_obj(BerObjectContent::Tagged(
        Class::ContextSpecific,
        0,
        Box::new(inner),
    ));
    assert_eq!(
        d.as_pretty(0, 2).to_text(),
        "ContextSpecific [CONTEXT-SPECIFIC 0] {\n  Integer([01])\n}\n"
    );
    let inner2 = BerObject::from_int_slice(b"\x02");
    let d2 = BerObject::from_obj(BerObjectContent::Tagged(
        Class::ContextSpecific,
        3,
        Box::new(inner2),
    ));
    assert_eq!(
        d2.as_pretty(2, 2).to_text(),
        "  ContextSpecific [CONTEXT-SPECIFIC 3] {\n    Integer([02])\n  }\n"
    );
}

#[test]
fn optional_uses_flat_default_form() {
    let inner = BerObject::from_int_slice(b"\x07");
    let d = BerObject::from_obj(BerObjectContent::Optional(Some(Box::new(inner))));
    assert_eq!(d.as_pretty(2, 2).to_text(), "  OPTION Integer([07])\n");
    let n = BerObject::from_obj(BerObjectContent::Optional(None));
    assert_eq!(n.as_pretty(0, 2).to_text(), "NONE\n");
}

#[test]
fn set_or_sequence_label_follows_header_tag() {
    // The label comes from the header tag alone, not from the content kind.
    let mut d = BerObject::from_obj(BerObjectContent::SetOf(vec![BerObject::from_int_slice(
        b"\x01",
    )]));
    d.header.tag = ber_pretty::model::TAG_SEQUENCE;
    assert_eq!(d.as_pretty(0, 2).to_text(), "Sequence[\n  Integer([01])\n]\n");
    let mut s = BerObject::from_obj(BerObjectContent::Sequence(vec![
        BerObject::from_int_slice(b"\x01"),
    ]));
    s.header.tag = ber_pretty::model::TAG_SET;
    assert_eq!(s.as_pretty(0, 2).to_text(), "Set[\n  Integer([01])\n]\n");
}

#[test]
fn rendering_twice_is_identical() {
    let d = BerObject::from_obj(BerObjectContent::Sequence(vec![
        BerObject::from_int_slice(b"\x01\x00\x01"),
        BerObject::from_obj(BerObjectContent::UTF8String(String::from("x"))),
    ]));
    let pp = d.as_pretty(0, 2);
    assert_eq!(pp.to_text(), pp.to_text());
}
