use vstd::prelude::*;

verus! {

use crate::ParserError;
use crate::xml::{XmlElement, attr_of, attrs_within, tags_within, first_tagged, names_view,
    opt_view, check_attrs_within, check_tags_within, first_child, attr_string, text_of,
    opt_as_str, text_content};
use crate::schema::req_attr;

/// Long-form documentation text with its source bookkeeping.
#[derive(Debug)]
pub struct Documentation {
    pub space: Option<String>,
    pub whitespace: Option<String>,
    pub filename: Option<String>,
    pub line: Option<String>,
    pub column: Option<String>,
    pub text: String,
}

pub open spec fn documentation_ok(e: XmlElement) -> bool {
    &&& attrs_within(
        e.attrs@,
        seq!["xml:space"@, "xml:whitespace"@, "filename"@, "line"@, "column"@],
    )
    &&& tags_within(e.children@, Seq::empty())
}

pub open spec fn documentation_matches(e: XmlElement, d: Documentation) -> bool {
    &&& opt_view(d.space) == attr_of(e, "xml:space"@)
    &&& opt_view(d.whitespace) == attr_of(e, "xml:whitespace"@)
    &&& opt_view(d.filename) == attr_of(e, "filename"@)
    &&& opt_view(d.line) == attr_of(e, "line"@)
    &&& opt_view(d.column) == attr_of(e, "column"@)
    &&& d.text@ == text_content(e.children@)
}

impl Documentation {
    pub fn from_element(e: &XmlElement) -> (r: Result<Documentation, ParserError>)
        ensures
            r matches Err(err) ==> err is Xml,
            r matches Ok(d) ==> documentation_matches(*e, d),
            r is Ok <==> documentation_ok(*e),
    {
        let attr_names: [&str; 5] = ["xml:space", "xml:whitespace", "filename", "line", "column"];
        let child_names: [&str; 0] = [];
        let within = check_attrs_within(e, &attr_names) && check_tags_within(e, &child_names);
        proof {
            assert(names_view(attr_names@) =~= seq![
                "xml:space"@, "xml:whitespace"@, "filename"@, "line"@, "column"@,
            ]);
            assert(names_view(child_names@) =~= Seq::<Seq<char>>::empty());
        }
        if !within {
            return Err(crate::xml_error("unrecognized content on a documentation element"));
        }
        let space = attr_string(e, "xml:space");
        let whitespace = attr_string(e, "xml:whitespace");
        let filename = attr_string(e, "filename");
        let line = attr_string(e, "line");
        let column = attr_string(e, "column");
        let text = text_of(e);
        Ok(Documentation { space, whitespace, filename, line, column, text })
    }

    pub fn space(&self) -> (r: Option<&str>)
        ensures
            opt_view(r) == opt_view(self.space),
    {
        opt_as_str(&self.space)
    }

    pub fn whitespace(&self) -> (r: Option<&str>)
        ensures
            opt_view(r) == opt_view(self.whitespace),
    {
        opt_as_str(&self.whitespace)
    }

    pub fn filename(&self) -> (r: Option<&str>)
        ensures
            opt_view(r) == opt_view(self.filename),
    {
        opt_as_str(&self.filename)
    }

    pub fn line(&self) -> (r: Option<&str>)
        ensures
            opt_view(r) == opt_view(self.line),
    {
        opt_as_str(&self.line)
    }

    pub fn column(&self) -> (r: Option<&str>)
        ensures
            opt_view(r) == opt_view(self.column),
    {
        opt_as_str(&self.column)
    }

    pub fn text(&self) -> (r: &str)
        ensures
            r@ == self.text@,
    {
        self.text.as_str()
    }
}

/// The note on what replaces a deprecated item.
#[derive(Debug)]
pub struct DocDeprecated {
    pub space: Option<String>,
    pub whitespace: Option<String>,
    pub text: String,
}

pub open spec fn doc_deprecated_ok(e: XmlElement) -> bool {
    &&& attrs_within(e.attrs@, seq!["xml:space"@, "xml:whitespace"@])
    &&& tags_within(e.children@, Seq::empty())
}

pub open spec fn doc_deprecated_matches(e: XmlElement, d: DocDeprecated) -> bool {
    &&& opt_view(d.space) == attr_of(e, "xml:space"@)
    &&& opt_view(d.whitespace) == attr_of(e, "xml:whitespace"@)
    &&& d.text@ == text_content(e.children@)
}

impl DocDeprecated {
    pub fn from_element(e: &XmlElement) -> (r: Result<DocDeprecated, ParserError>)
        ensures
            r matches Err(err) ==> err is Xml,
            r matches Ok(d) ==> doc_deprecated_matches(*e, d),
            r is Ok <==> doc_deprecated_ok(*e),
    {
        let attr_names: [&str; 2] = ["xml:space", "xml:whitespace"];
        let child_names: [&str; 0] = [];
        let within = check_attrs_within(e, &attr_names) && check_tags_within(e, &child_names);
        proof {
            assert(names_view(attr_names@) =~= seq!["xml:space"@, "xml:whitespace"@]);
            assert(names_view(child_names@) =~= Seq::<Seq<char>>::empty());
        }
        if !within {
            return Err(crate::xml_error("unrecognized content on a documentation element"));
        }
        let space = attr_string(e, "xml:space");
        let whitespace = attr_string(e, "xml:whitespace");
        let text = text_of(e);
        Ok(DocDeprecated { space, whitespace, text })
    }

    pub fn space(&self) -> (r: Option<&str>)
        ensures
            opt_view(r) == opt_view(self.space),
    {
        opt_as_str(&self.space)
    }

    pub fn whitespace(&self) -> (r: Option<&str>)
        ensures
            opt_view(r) == opt_view(self.whitespace),
    {
        opt_as_str(&self.whitespace)
    }

    pub fn text(&self) -> (r: &str)
        ensures
            r@ == self.text@,
    {
        self.text.as_str()
    }
}

/// The note on an item's stability.
#[derive(Debug)]
pub struct DocStability {
    pub space: Option<String>,
    pub whitespace: Option<String>,
    pub text: String,
}

pub open spec fn doc_stability_ok(e: XmlElement) -> bool {
    &&& attrs_within(e.attrs@, seq!["xml:space"@, "xml:whitespace"@])
    &&& tags_within(e.children@, Seq::empty())
}

pub open spec fn doc_stability_matches(e: XmlElement, d: DocStability) -> bool {
    &&& opt_view(d.space) == attr_of(e, "xml:space"@)
    &&& opt_view(d.whitespace) == attr_of(e, "xml:whitespace"@)
    &&& d.text@ == text_content(e.children@)
}

impl DocStability {
    pub fn from_element(e: &XmlElement) -> (r: Result<DocStability, ParserError>)
        ensures
            r matches Err(err) ==> err is Xml,
            r matches Ok(d) ==> doc_stability_matches(*e, d),
            r is Ok <==> doc_stability_ok(*e),
    {
        let attr_names: [&str; 2] = ["xml:space", "xml:whitespace"];
        let child_names: [&str; 0] = [];
        let within = check_attrs_within(e, &attr_names) && check_tags_within(e, &child_names);
        proof {
            assert(names_view(attr_names@) =~= seq!["xml:space"@, "xml:whitespace"@]);
            assert(names_view(child_names@) =~= Seq::<Seq<char>>::empty());
        }
        if !within {
            return Err(crate::xml_error("unrecognized content on a documentation element"));
        }
        let space = attr_string(e, "xml:space");
        let whitespace = attr_string(e, "xml:whitespace");
        let text = text_of(e);
        Ok(DocStability { space, whitespace, text })
    }

    pub fn space(&self) -> (r: Option<&str>)
        ensures
            opt_view(r) == opt_view(self.space),
    {
        opt_as_str(&self.space)
    }

    pub fn whitespace(&self) -> (r: Option<&str>)
        ensures
            opt_view(r) == opt_view(self.whitespace),
    {
        opt_as_str(&self.whitespace)
    }

    pub fn text(&self) -> (r: &str)
        ensures
            r@ == self.text@,
    {
        self.text.as_str()
    }
}

/// The note on the version an item appeared in.
#[derive(Debug)]
pub struct DocVersion {
    pub space: Option<String>,
    pub whitespace: Option<String>,
    pub text: String,
}

pub open spec fn doc_version_ok(e: XmlElement) -> bool {
    &&& attrs_within(e.attrs@, seq!["xml:space"@, "xml:whitespace"@])
    &&& tags_within(e.children@, Seq::empty())
}

pub open spec fn doc_version_matches(e: XmlElement, d: DocVersion) -> bool {
    &&& opt_view(d.space) == attr_of(e, "xml:space"@)
    &&& opt_view(d.whitespace) == attr_of(e, "xml:whitespace"@)
    &&& d.text@ == text_content(e.children@)
}

impl DocVersion {
    pub fn from_element(e: &XmlElement) -> (r: Result<DocVersion, ParserError>)
        ensures
            r matches Err(err) ==> err is Xml,
            r matches Ok(d) ==> doc_version_matches(*e, d),
            r is Ok <==> doc_version_ok(*e),
    {
        let attr_names: [&str; 2] = ["xml:space", "xml:whitespace"];
        let child_names: [&str; 0] = [];
        let within = check_attrs_within(e, &attr_names) && check_tags_within(e, &child_names);
        proof {
            assert(names_view(attr_names@) =~= seq!["xml:space"@, "xml:whitespace"@]);
            assert(names_view(child_names@) =~= Seq::<Seq<char>>::empty());
        }
        if !within {
            return Err(crate::xml_error("unrecognized content on a documentation element"));
        }
        let space = attr_string(e, "xml:space");
        let whitespace = attr_string(e, "xml:whitespace");
        let text = text_of(e);
        Ok(DocVersion { space, whitespace, text })
    }

    pub fn space(&self) -> (r: Option<&str>)
        ensures
            opt_view(r) == opt_view(self.space),
    {
        opt_as_str(&self.space)
    }

    pub fn whitespace(&self) -> (r: Option<&str>)
        ensures
            opt_view(r) == opt_view(self.whitespace),
    {
        opt_as_str(&self.whitespace)
    }

    pub fn text(&self) -> (r: &str)
        ensures
            r@ == self.text@,
    {
        self.text.as_str()
    }
}

/// The file, line and column an item was introspected from.
#[derive(Debug)]
pub struct SourcePosition {
    pub filename: String,
    pub line: String,
    pub column: Option<String>,
}

pub open spec fn source_position_ok(e: XmlElement) -> bool {
    &&& attr_of(e, "filename"@) is Some
    &&& attr_of(e, "line"@) is Some
    &&& attrs_within(e.attrs@, seq!["filename"@, "line"@, "column"@])
    &&& tags_within(e.children@, Seq::empty())
}

pub open spec fn source_position_matches(e: XmlElement, d: SourcePosition) -> bool {
    &&& attr_of(e, "filename"@) == Some(d.filename@)
    &&& attr_of(e, "line"@) == Some(d.line@)
    &&& opt_view(d.column) == attr_of(e, "column"@)
}

impl SourcePosition {
    pub fn from_element(e: &XmlElement) -> (r: Result<SourcePosition, ParserError>)
        ensures
            r matches Err(err) ==> err is Xml,
            r matches Ok(d) ==> source_position_matches(*e, d),
            r is Ok <==> source_position_ok(*e),
    {
        let attr_names: [&str; 3] = ["filename", "line", "column"];
        let child_names: [&str; 0] = [];
        let within = check_attrs_within(e, &attr_names) && check_tags_within(e, &child_names);
        proof {
            assert(names_view(attr_names@) =~= seq!["filename"@, "line"@, "column"@]);
            assert(names_view(child_names@) =~= Seq::<Seq<char>>::empty());
        }
        if !within {
            return Err(crate::xml_error("unrecognized content on a source-position element"));
        }
        let filename = req_attr(e, "filename")?;
        let line = req_attr(e, "line")?;
        let column = attr_string(e, "column");
        Ok(SourcePosition { filename, line, column })
    }

    pub fn filename(&self) -> (r: &str)
        ensures
            r@ == self.filename@,
    {
        self.filename.as_str()
    }

    pub fn line(&self) -> (r: &str)
        ensures
            r@ == self.line@,
    {
        self.line.as_str()
    }

    pub fn column(&self) -> (r: Option<&str>)
        ensures
            opt_view(r) == opt_view(self.column),
    {
        opt_as_str(&self.column)
    }
}

/// The documentation capability group composed into every entity that carries
/// documentation.
#[derive(Debug)]
pub struct Docs {
    pub doc: Option<Documentation>,
    pub doc_deprecated: Option<DocDeprecated>,
    pub doc_stability: Option<DocStability>,
    pub doc_version: Option<DocVersion>,
    pub source_position: Option<SourcePosition>,
}

/// Whether the documentation children of `e` all map without error.
pub open spec fn docs_ok(e: XmlElement) -> bool {
    &&& match first_tagged(e.children@, "doc"@) {
        Some(c) => documentation_ok(c),
        None => true,
    }
    &&& match first_tagged(e.children@, "doc-deprecated"@) {
        Some(c) => doc_deprecated_ok(c),
        None => true,
    }
    &&& match first_tagged(e.children@, "doc-stability"@) {
        Some(c) => doc_stability_ok(c),
        None => true,
    }
    &&& match first_tagged(e.children@, "doc-version"@) {
        Some(c) => doc_version_ok(c),
        None => true,
    }
    &&& match first_tagged(e.children@, "source-position"@) {
        Some(c) => source_position_ok(c),
        None => true,
    }
}

/// How the documentation children of `e` map onto the group: each single-child
/// field takes the first child with its tag, or is absent.
pub open spec fn docs_matches(e: XmlElement, d: Docs) -> bool {
    &&& match first_tagged(e.children@, "doc"@) {
        Some(c) => d.doc matches Some(v) && documentation_matches(c, v),
        None => d.doc is None,
    }
    &&& match first_tagged(e.children@, "doc-deprecated"@) {
        Some(c) => d.doc_deprecated matches Some(v) && doc_deprecated_matches(c, v),
        None => d.doc_deprecated is None,
    }
    &&& match first_tagged(e.children@, "doc-stability"@) {
        Some(c) => d.doc_stability matches Some(v) && doc_stability_matches(c, v),
        None => d.doc_stability is None,
    }
    &&& match first_tagged(e.children@, "doc-version"@) {
        Some(c) => d.doc_version matches Some(v) && doc_version_matches(c, v),
        None => d.doc_version is None,
    }
    &&& match first_tagged(e.children@, "source-position"@) {
        Some(c) => d.source_position matches Some(v) && source_position_matches(c, v),
        None => d.source_position is None,
    }
}

impl Docs {
    pub fn from_children(e: &XmlElement) -> (r: Result<Docs, ParserError>)
        ensures
            r matches Err(err) ==> err is Xml,
            r matches Ok(d) ==> docs_matches(*e, d),
            r is Ok <==> docs_ok(*e),
    {
        let doc = match first_child(e, "doc") {
            Some(c) => Some(Documentation::from_element(c)?),
            None => None,
        };
        let doc_deprecated = match first_child(e, "doc-deprecated") {
            Some(c) => Some(DocDeprecated::from_element(c)?),
            None => None,
        };
        let doc_stability = match first_child(e, "doc-stability") {
            Some(c) => Some(DocStability::from_element(c)?),
            None => None,
        };
        let doc_version = match first_child(e, "doc-version") {
            Some(c) => Some(DocVersion::from_element(c)?),
            None => None,
        };
        let source_position = match first_child(e, "source-position") {
            Some(c) => Some(SourcePosition::from_element(c)?),
            None => None,
        };
        Ok(Docs { doc, doc_deprecated, doc_stability, doc_version, source_position })
    }
}

} // verus!
