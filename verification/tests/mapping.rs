use gir_parser::xmlio::parse_document;
use gir_parser::prelude::{Attributable, Callable, Documentable, Info};
use gir_parser::{Class, ClassField, Field, Member, Parameter, ParameterType, Stability};

#[test]
fn ordered_heterogeneous_children() {
    // A class body interleaving a field, a nested union and a callback must
    // come out as one tagged sequence preserving exactly that order.
    let text = r#"<class name="Window" glib:type-name="GtkWindow" glib:get-type="gtk_window_get_type">
        <field name="parent"><type name="Widget"/></field>
        <union name="payload"></union>
        <callback name="draw"><return-value><type name="none"/></return-value></callback>
    </class>"#;
    let root = parse_document(text).unwrap();
    let class = Class::from_element(&root).unwrap();
    let fields = class.fields();
    assert_eq!(fields.len(), 3);
    assert!(matches!(fields[0], ClassField::Field(_)));
    assert!(matches!(fields[1], ClassField::Union(_)));
    assert!(matches!(fields[2], ClassField::Callback(_)));
    match &fields[0] {
        ClassField::Field(f) => assert_eq!(f.name(), "parent"),
        _ => unreachable!(),
    }
    match &fields[2] {
        ClassField::Callback(c) => assert_eq!(c.name(), "draw"),
        _ => unreachable!(),
    }
}

#[test]
fn untagged_variant_dispatch() {
    // A parameter whose child is <varargs/> yields the variadic marker.
    let root = parse_document(r#"<parameter name="args"><varargs/></parameter>"#).unwrap();
    let p = Parameter::from_element(&root).unwrap();
    assert!(matches!(p.ty(), Some(ParameterType::VarArgs)));

    // One whose child is <array> yields the array variant.
    let root = parse_document(
        r#"<parameter name="items"><array length="1"><type name="utf8"/></array></parameter>"#,
    )
    .unwrap();
    let p = Parameter::from_element(&root).unwrap();
    match p.ty() {
        Some(ParameterType::Array(a)) => assert_eq!(a.length(), Some(1)),
        other => panic!("not the array variant: {:?}", other),
    }

    // One whose child is <type> yields the plain-type variant.
    let root =
        parse_document(r#"<parameter name="window"><type name="Window"/></parameter>"#).unwrap();
    let p = Parameter::from_element(&root).unwrap();
    match p.ty() {
        Some(ParameterType::Type(t)) => assert_eq!(t.name(), Some("Window")),
        other => panic!("not the plain-type variant: {:?}", other),
    }

    // A parameter with none of the three yields an absent type.
    let root = parse_document(r#"<parameter name="bare"/>"#).unwrap();
    let p = Parameter::from_element(&root).unwrap();
    assert!(p.ty().is_none());
}

#[test]
fn unknown_attribute_rejected() {
    // The parameter entity rejects unrecognized content: an undeclared
    // attribute fails the parse.
    let root = parse_document(r#"<parameter name="x" colour="red"/>"#).unwrap();
    assert!(Parameter::from_element(&root).is_err());
}

#[test]
fn unknown_child_rejected() {
    let root =
        parse_document(r#"<parameter name="x"><wingding/></parameter>"#).unwrap();
    assert!(Parameter::from_element(&root).is_err());
}

#[test]
fn member_fields_and_info() {
    let text = r#"<member name="visible" value="1" c:identifier="GTK_VISIBLE"
        glib:nick="visible" deprecated="1" version="3.2" stability="Stable">
        <doc xml:space="preserve">Shown on screen.</doc>
    </member>"#;
    let root = parse_document(text).unwrap();
    let m = Member::from_element(&root).unwrap();
    assert_eq!(m.name(), "visible");
    assert_eq!(m.value(), "1");
    assert_eq!(m.c_identifier(), "GTK_VISIBLE");
    assert_eq!(m.g_nick(), Some("visible"));
    assert_eq!(m.g_name(), None);
    assert!(m.is_deprecated());
    assert!(m.is_introspectable());
    assert_eq!(m.version().copied(), Some(gir_parser::Version(3, Some(2), None)));
    assert_eq!(m.stability(), Some(Stability::Stable));
    assert_eq!(m.doc().unwrap().text(), "Shown on screen.");
    assert_eq!(m.doc().unwrap().space(), Some("preserve"));
    // A member with a required attribute missing is a structural error.
    let root = parse_document(r#"<member name="nameless" value="2"/>"#).unwrap();
    assert!(Member::from_element(&root).is_err());
    // A badly typed flag is a structural error.
    let root = parse_document(
        r#"<member name="x" value="1" c:identifier="X" deprecated="yes"/>"#,
    )
    .unwrap();
    assert!(Member::from_element(&root).is_err());
}

#[test]
fn field_shapes_and_escapes() {
    let text = r#"<field name="label" readable="1" bits="3">
        <doc>uses &amp;lt; escapes &#38; references</doc>
        <type name="utf8" c:type="char*"/>
    </field>"#;
    let root = parse_document(text).unwrap();
    let f = Field::from_element(&root).unwrap();
    assert_eq!(f.name(), "label");
    assert!(f.is_readable());
    assert!(!f.is_writable());
    assert!(!f.is_private());
    assert_eq!(f.bits(), Some(3));
    assert!(f.ty().is_type());
    assert_eq!(f.ty().as_type().c_type(), Some("char*"));
    // Entity references resolved by the tokenizer reach the model as plain
    // characters; the text would differ if the reader handed bytes through
    // unchanged.
    assert_eq!(f.doc().unwrap().text(), "uses &lt; escapes & references");
}

#[test]
fn callable_surface() {
    let text = r#"<function name="new" c:identifier="gtk_window_new" throws="1"
        moved-to="Window.create" glib:async-func="new_async">
        <return-value transfer-ownership="full"><type name="Window"/></return-value>
        <parameters>
            <parameter name="title" nullable="1" direction="in" scope="call" closure="2">
                <type name="utf8"/>
            </parameter>
        </parameters>
    </function>"#;
    let root = parse_document(text).unwrap();
    let f = gir_parser::Function::from_element(&root).unwrap();
    assert_eq!(f.name(), "new");
    assert_eq!(f.c_identifier(), Some("gtk_window_new"));
    assert!(f.throws());
    assert_eq!(f.moved_to(), Some("Window.create"));
    assert_eq!(f.async_func(), Some("new_async"));
    assert_eq!(f.shadows(), None);
    let params = f.parameters();
    assert!(!params.is_empty());
    assert_eq!(params.inner().len(), 1);
    let p = &params.inner()[0];
    assert_eq!(p.name(), "title");
    assert_eq!(p.is_nullable(), Some(true));
    assert_eq!(p.direction(), Some(gir_parser::Direction::In));
    assert_eq!(p.scope(), Some(gir_parser::FunctionScope::Call));
    assert_eq!(p.closure(), Some(2));
    let all = params.all();
    assert_eq!(all.len(), 1);
    assert!(all[0].is_regular());
    assert_eq!(all[0].name(), "title");
    let rv = f.return_value();
    assert_eq!(rv.transfer_ownership(), Some(gir_parser::TransferOwnership::Full));
    assert_eq!(rv.ty().as_type().name(), Some("Window"));
    // A function without a parameters child reads as the empty parameter
    // list.
    let root = parse_document(
        r#"<function name="noop"><return-value><type name="none"/></return-value></function>"#,
    )
    .unwrap();
    let f = gir_parser::Function::from_element(&root).unwrap();
    assert!(f.parameters().is_empty());
}

#[test]
fn attribute_lookups() {
    let text = r#"<function name="get_title">
        <attribute name="org.gtk.Property.get" value="title"/>
        <attribute name="vendor.extra" value="1"/>
        <return-value><type name="utf8"/></return-value>
    </function>"#;
    let root = parse_document(text).unwrap();
    let f = gir_parser::Function::from_element(&root).unwrap();
    assert_eq!(f.attributes().len(), 2);
    assert_eq!(f.attributes()[0].name(), "org.gtk.Property.get");
    assert_eq!(f.gtk_property_get(), Some("title"));
    assert_eq!(f.gtk_property_set(), None);
    assert_eq!(f.gtk_method_get_property(), None);
}

#[test]
fn loose_entities_ignore_unrecognized_content() {
    // A constant does not declare strict rejection: vendor extensions on it
    // are ignored, not errors.
    let root = parse_document(
        r#"<constant name="SCALE" value="1024" vendor:flavour="mint">
            <vendor:extra/>
            <type name="gint"/>
        </constant>"#,
    )
    .unwrap();
    let c = gir_parser::Constant::from_element(&root).unwrap();
    assert_eq!(c.name(), "SCALE");
    assert_eq!(c.value(), "1024");
    assert_eq!(c.ty().as_type().name(), Some("gint"));

    // Neither does a property.
    let root = parse_document(
        r#"<property name="title" vendor:flavour="mint"><type name="utf8"/></property>"#,
    )
    .unwrap();
    let p = gir_parser::Property::from_element(&root).unwrap();
    assert_eq!(p.name(), "title");
    assert!(p.is_readable());
}

#[test]
fn virtual_method_without_parameters_is_empty() {
    // A virtual method with no parameters child reads as the empty parameter
    // list, like its sibling callable kinds.
    let root = parse_document(
        r#"<virtual-method name="draw"><return-value><type name="none"/></return-value></virtual-method>"#,
    )
    .unwrap();
    let vm = gir_parser::VirtualMethod::from_element(&root).unwrap();
    assert!(vm.parameters().is_empty());
    assert_eq!(vm.invoker(), None);
}
