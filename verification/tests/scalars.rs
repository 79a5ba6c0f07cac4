use gir_parser::{DocFormat, Direction, FunctionScope, SignalEmission, Stability,
    TransferOwnership};

#[test]
fn stability_codec() {
    assert_eq!(Stability::parse("Stable"), Some(Stability::Stable));
    assert_eq!(Stability::parse("Unstable"), Some(Stability::Unstable));
    assert_eq!(Stability::parse("Private"), Some(Stability::Private));
    assert_eq!(Stability::parse("stable"), None);
    assert_eq!(Stability::parse(""), None);
    for v in [Stability::Stable, Stability::Unstable, Stability::Private] {
        assert_eq!(Stability::parse(v.as_str()), Some(v));
    }
}

#[test]
fn transfer_codec() {
    assert_eq!(TransferOwnership::parse("none"), Some(TransferOwnership::NoTransfer));
    assert_eq!(TransferOwnership::parse("container"), Some(TransferOwnership::Container));
    assert_eq!(TransferOwnership::parse("full"), Some(TransferOwnership::Full));
    assert_eq!(TransferOwnership::parse("Full"), None);
    for v in [
        TransferOwnership::NoTransfer,
        TransferOwnership::Container,
        TransferOwnership::Full,
    ] {
        assert_eq!(TransferOwnership::parse(v.as_str()), Some(v));
    }
    assert!(TransferOwnership::NoTransfer.is_none());
    assert!(TransferOwnership::Full.is_full());
    assert!(TransferOwnership::Container.is_container());
    assert!(!TransferOwnership::Full.is_none());
}

#[test]
fn scope_codec() {
    assert_eq!(FunctionScope::parse("call"), Some(FunctionScope::Call));
    assert_eq!(FunctionScope::parse("notified"), Some(FunctionScope::Notified));
    assert_eq!(FunctionScope::parse("async"), Some(FunctionScope::Async));
    assert_eq!(FunctionScope::parse("forever"), Some(FunctionScope::Forever));
    assert_eq!(FunctionScope::parse("never"), None);
    for v in [
        FunctionScope::Call,
        FunctionScope::Notified,
        FunctionScope::Async,
        FunctionScope::Forever,
    ] {
        assert_eq!(FunctionScope::parse(v.as_str()), Some(v));
    }
    assert!(FunctionScope::Call.is_call());
    assert!(FunctionScope::Notified.is_notified());
    assert!(FunctionScope::Async.is_async());
    assert!(FunctionScope::Forever.is_forever());
}

#[test]
fn emission_codec() {
    assert_eq!(SignalEmission::parse("first"), Some(SignalEmission::First));
    assert_eq!(SignalEmission::parse("last"), Some(SignalEmission::Last));
    assert_eq!(SignalEmission::parse("cleanup"), Some(SignalEmission::Cleanup));
    assert_eq!(SignalEmission::parse("middle"), None);
    for v in [SignalEmission::First, SignalEmission::Last, SignalEmission::Cleanup] {
        assert_eq!(SignalEmission::parse(v.as_str()), Some(v));
    }
}

#[test]
fn direction_codec() {
    assert_eq!(Direction::parse("in"), Some(Direction::In));
    assert_eq!(Direction::parse("out"), Some(Direction::Out));
    assert_eq!(Direction::parse("inout"), Some(Direction::InOut));
    assert_eq!(Direction::parse("both"), None);
    for v in [Direction::In, Direction::Out, Direction::InOut] {
        assert_eq!(Direction::parse(v.as_str()), Some(v));
    }
}

#[test]
fn doc_format_codec() {
    assert_eq!(DocFormat::parse("gtk-doc"), DocFormat::GtkDoc);
    assert_eq!(DocFormat::parse("gi-docgen"), DocFormat::GiDocgen);
    // An unrecognized marker falls back to the unknown variant instead of
    // failing: this scalar is informational only.
    assert_eq!(DocFormat::parse("hotdoc"), DocFormat::Unknown);
    for v in [DocFormat::GtkDoc, DocFormat::GiDocgen, DocFormat::Unknown] {
        assert_eq!(DocFormat::parse(v.as_str()), v);
    }
}
