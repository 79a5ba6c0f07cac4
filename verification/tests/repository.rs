use gir_parser::{DocFormat, Repository, Version};

#[test]
fn parse_doc_format_is_missing() {
    // doc:format is missing
    let content = r#"
<repository xmlns="http://www.gtk.org/introspection/core/1.0" xmlns:c="http://www.gtk.org/introspection/c/1.0" xmlns:doc="http://www.gtk.org/introspection/doc/1.0" xmlns:glib="http://www.gtk.org/introspection/glib/1.0" version="1.2">
  <include name="GObject" version="2.0"/>
  <package name="pango"/>
  <c:include name="pango/pango.h"/>
  <namespace name="Pango" version="1.0" shared-library="libpango-1.0.so.0" c:identifier-prefixes="Pango" c:symbol-prefixes="pango">
  </namespace>
</repository>"#;
    let repo = Repository::from_str(content).unwrap();
    assert_eq!(repo.doc_format(), DocFormat::Unknown);
}

#[test]
fn parse_doc_format_gi_docgen_missing() {
    // doc:format is missing
    let content = r#"
<repository xmlns="http://www.gtk.org/introspection/core/1.0" xmlns:c="http://www.gtk.org/introspection/c/1.0" xmlns:doc="http://www.gtk.org/introspection/doc/1.0" xmlns:glib="http://www.gtk.org/introspection/glib/1.0" version="1.2" doc:format="gi-docgen">
  <include name="GObject" version="2.0"/>
  <package name="pango"/>
  <c:include name="pango/pango.h"/>
  <namespace name="Pango" version="1.0" shared-library="libpango-1.0.so.0" c:identifier-prefixes="Pango" c:symbol-prefixes="pango">
  </namespace>
</repository>"#;
    let repo = Repository::from_str(content).unwrap();
    assert_eq!(repo.doc_format(), DocFormat::GiDocgen);
}

#[test]
fn repository_surface() {
    let content = r#"
<repository version="1.2">
  <include name="GObject" version="2.0"/>
  <include name="GLib" version="2.0"/>
  <package name="pango"/>
  <c:include name="pango/pango.h"/>
  <namespace name="Pango" version="1.0" c:identifier-prefixes="Pango,PangoCairo" c:symbol-prefixes="pango">
    <alias name="Glyph" c:type="PangoGlyph"><type name="guint32" c:type="guint32"/></alias>
    <enumeration name="Style" c:type="PangoStyle">
      <member name="normal" value="0" c:identifier="PANGO_STYLE_NORMAL"/>
      <member name="oblique" value="1" c:identifier="PANGO_STYLE_OBLIQUE"/>
    </enumeration>
    <bitfield name="FontMask" c:type="PangoFontMask">
      <member name="family" value="1" c:identifier="PANGO_FONT_MASK_FAMILY"/>
    </bitfield>
    <record name="Matrix" c:type="PangoMatrix">
      <field name="xx"><type name="gdouble"/></field>
    </record>
    <constant name="SCALE" value="1024" c:type="gint"><type name="gint"/></constant>
  </namespace>
</repository>"#;
    let repo = Repository::from_str(content).unwrap();
    assert_eq!(repo.version(), Some(&Version(1, Some(2), None)));
    assert_eq!(repo.namespace_includes().len(), 2);
    assert_eq!(repo.namespace_includes()[0].name(), "GObject");
    assert_eq!(repo.namespace_includes()[0].as_package(), "GObject-2.0");
    assert_eq!(repo.namespace_includes()[0].as_package_file(), "GObject-2.0.gir");
    assert_eq!(repo.header_includes()[0].name(), "pango/pango.h");
    assert_eq!(repo.packages()[0].name(), "pango");

    let ns = repo.namespace();
    assert_eq!(ns.name(), "Pango");
    assert_eq!(ns.version(), "1.0");
    assert_eq!(ns.c_identifier_prefixes(), vec!["Pango", "PangoCairo"]);
    assert_eq!(ns.c_symbol_prefixes(), vec!["pango"]);
    assert_eq!(ns.aliases()[0].name(), "Glyph");
    assert_eq!(ns.aliases()[0].c_type(), "PangoGlyph");
    assert_eq!(ns.enumerations()[0].name(), "Style");
    assert_eq!(ns.enumerations()[0].members().len(), 2);
    assert_eq!(ns.enumerations()[0].members()[1].name(), "oblique");
    assert_eq!(ns.bit_fields()[0].name(), "FontMask");
    assert_eq!(ns.records()[0].name(), Some("Matrix"));
    assert_eq!(ns.records()[0].c_type(), Some("PangoMatrix"));
    assert_eq!(ns.constants()[0].name(), "SCALE");
    assert_eq!(ns.constants()[0].value(), "1024");
}

#[test]
fn unknown_field_rejection_fails_whole_document() {
    // An undeclared attribute on the strict repository root fails the whole
    // parse with a structural error.
    let content = r#"<repository version="1.2" flavour="strawberry">
  <namespace name="N" version="1.0"></namespace>
</repository>"#;
    let r = Repository::from_str(content);
    match r {
        Err(e @ gir_parser::ParserError::Xml(_)) => {
            assert!(e.message().starts_with("Failed to parse xml file: "));
        },
        other => panic!("expected the structural error, got {:?}", other),
    }

    // So does an undeclared child element deep inside a strict entity.
    let content = r#"<repository version="1.2">
  <namespace name="N" version="1.0">
    <record name="R"><blob/></record>
  </namespace>
</repository>"#;
    let r = Repository::from_str(content);
    assert!(matches!(r, Err(gir_parser::ParserError::Xml(_))));
}

#[test]
fn malformed_documents_fail() {
    assert!(Repository::from_str("").is_err());
    assert!(Repository::from_str("<repository>").is_err());
    assert!(Repository::from_str("<wrong/>").is_err());
    // The root must hold exactly one namespace.
    assert!(Repository::from_str("<repository version=\"1.2\"></repository>").is_err());
}
