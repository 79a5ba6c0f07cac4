use vstd::prelude::*;

verus! {

use crate::ParserError;
use crate::namespace::{Namespace, namespace_ok, namespace_matches, strs_view};
use crate::version::{Version, version_of, version_render};
use crate::schema::{req_attr_spec, opt_version_attr, req_attr, attr_opt_version};
use crate::xml::{XmlElement, attr_of, attrs_within, tags_within, first_tagged, tagged_children,
    names_view, opt_view, opt_deref, check_attrs_within, check_tags_within, first_child,
    children_tagged, derefs, attr_string, opt_as_str, str_eq};
use crate::xmlio::{text_document_scan, text_document_rep};

/// Whether a text reads as a repository document: it tokenizes to a
/// well-formed document whose root is a repository element that maps without a
/// structural error.
#[verifier::opaque]
pub open spec fn repository_text_ok(text: Seq<char>) -> bool {
    &&& text_document_scan(text)
    &&& forall|root: XmlElement|
        #[trigger] text_document_rep(text, root) ==> root.tag@ == "repository"@
            && repository_ok(root)
}

/// How a text reads as a repository, through the tokenizer's named result.
#[verifier::opaque]
pub open spec fn repository_text_rep(text: Seq<char>, repo: Repository) -> bool {
    exists|root: XmlElement|
        #[trigger] text_document_rep(text, root) && root.tag@ == "repository"@ && repository_ok(
            root,
        ) && repository_matches(root, repo)
}

/// A witnessed root element establishes the reading relation.
proof fn lemma_repository_rep_intro(text: Seq<char>, root: XmlElement, repo: Repository)
    requires
        text_document_rep(text, root),
        root.tag@ == "repository"@,
        repository_ok(root),
        repository_matches(root, repo),
    ensures
        repository_text_rep(text, repo),
{
    reveal(repository_text_rep);
}

/// What a readable repository text gives.
proof fn lemma_repository_ok_elim(text: Seq<char>)
    requires
        repository_text_ok(text),
    ensures
        text_document_scan(text),
        forall|root: XmlElement|
            #[trigger] text_document_rep(text, root) ==> root.tag@ == "repository"@
                && repository_ok(root),
{
    reveal(repository_text_ok);
}

/// A namespace include declaration: the name and version of a document this
/// document depends on.
#[derive(Debug)]
pub struct NamespaceInclude {
    pub name: String,
    pub version: Version,
}

pub open spec fn namespace_include_ok(e: XmlElement) -> bool {
    &&& req_attr_spec(e, "name"@) is Ok
    &&& req_attr_spec(e, "version"@) is Ok
    &&& attrs_within(e.attrs@, seq!["name"@, "version"@])
    &&& tags_within(e.children@, Seq::empty())
}

pub open spec fn namespace_include_matches(e: XmlElement, x: NamespaceInclude) -> bool {
    &&& req_attr_spec(e, "name"@) == Ok::<_, ()>(x.name@)
    &&& req_attr_spec(e, "version"@) matches Ok(s) && x.version == version_of(s)
}

/// The package identifier of an include: `Name-Version`.
pub open spec fn include_package(x: NamespaceInclude) -> Seq<char> {
    x.name@ + "-"@ + version_render(x.version)
}

/// The file naming convention of an include: `Name-Version.gir`.
#[verifier::opaque]
pub open spec fn include_package_file(x: NamespaceInclude) -> Seq<char> {
    include_package(x) + ".gir"@
}

impl NamespaceInclude {
    pub fn from_element(e: &XmlElement) -> (r: Result<NamespaceInclude, ParserError>)
        ensures
            r matches Err(err) ==> err is Xml,
            r matches Ok(x) ==> namespace_include_matches(*e, x),
            r is Ok <==> namespace_include_ok(*e),
    {
        let attr_names: [&str; 2] = ["name", "version"];
        let child_names: [&str; 0] = [];
        let within = check_attrs_within(e, &attr_names) && check_tags_within(e, &child_names);
        proof {
            assert(names_view(attr_names@) =~= seq!["name"@, "version"@]);
            assert(names_view(child_names@) =~= Seq::<Seq<char>>::empty());
        }
        if !within {
            return Err(crate::xml_error("unrecognized content on an include element"));
        }
        let name = req_attr(e, "name")?;
        let vstr = req_attr(e, "version")?;
        let version = Version::parse(vstr.as_str());
        Ok(NamespaceInclude { name, version })
    }

    /// The package identifier this include names.
    pub fn as_package(&self) -> (r: String)
        ensures
            r@ == include_package(*self),
    {
        let mut out = self.name.clone();
        out.append("-");
        let v = self.version.to_string();
        out.append(v.as_str());
        out
    }

    /// The file name this include resolves to.
    pub fn as_package_file(&self) -> (r: String)
        ensures
            r@ == include_package_file(*self),
    {
        proof {
            reveal(include_package_file);
        }
        let mut out = self.as_package();
        out.append(".gir");
        out
    }

    pub fn name(&self) -> (r: &str)
        ensures
            r@ == self.name@,
    {
        self.name.as_str()
    }

    pub fn version(&self) -> (r: &Version)
        ensures
            *r == self.version,
    {
        &self.version
    }
}

/// A C header include declaration.
#[derive(Debug)]
pub struct HeaderInclude {
    pub name: String,
}

pub open spec fn header_include_ok(e: XmlElement) -> bool {
    &&& req_attr_spec(e, "name"@) is Ok
    &&& attrs_within(e.attrs@, seq!["name"@])
    &&& tags_within(e.children@, Seq::empty())
}

pub open spec fn header_include_matches(e: XmlElement, x: HeaderInclude) -> bool {
    req_attr_spec(e, "name"@) == Ok::<_, ()>(x.name@)
}

impl HeaderInclude {
    pub fn from_element(e: &XmlElement) -> (r: Result<HeaderInclude, ParserError>)
        ensures
            r matches Err(err) ==> err is Xml,
            r matches Ok(x) ==> header_include_matches(*e, x),
            r is Ok <==> header_include_ok(*e),
    {
        let attr_names: [&str; 1] = ["name"];
        let child_names: [&str; 0] = [];
        let within = check_attrs_within(e, &attr_names) && check_tags_within(e, &child_names);
        proof {
            assert(names_view(attr_names@) =~= seq!["name"@]);
            assert(names_view(child_names@) =~= Seq::<Seq<char>>::empty());
        }
        if !within {
            return Err(crate::xml_error("unrecognized content on a header include element"));
        }
        let name = req_attr(e, "name")?;
        Ok(HeaderInclude { name })
    }

    pub fn name(&self) -> (r: &str)
        ensures
            r@ == self.name@,
    {
        self.name.as_str()
    }
}

/// A package declaration.
#[derive(Debug)]
pub struct Package {
    pub name: String,
}

pub open spec fn package_ok(e: XmlElement) -> bool {
    &&& req_attr_spec(e, "name"@) is Ok
    &&& attrs_within(e.attrs@, seq!["name"@])
    &&& tags_within(e.children@, Seq::empty())
}

pub open spec fn package_matches(e: XmlElement, x: Package) -> bool {
    req_attr_spec(e, "name"@) == Ok::<_, ()>(x.name@)
}

impl Package {
    pub fn from_element(e: &XmlElement) -> (r: Result<Package, ParserError>)
        ensures
            r matches Err(err) ==> err is Xml,
            r matches Ok(x) ==> package_matches(*e, x),
            r is Ok <==> package_ok(*e),
    {
        let attr_names: [&str; 1] = ["name"];
        let child_names: [&str; 0] = [];
        let within = check_attrs_within(e, &attr_names) && check_tags_within(e, &child_names);
        proof {
            assert(names_view(attr_names@) =~= seq!["name"@]);
            assert(names_view(child_names@) =~= Seq::<Seq<char>>::empty());
        }
        if !within {
            return Err(crate::xml_error("unrecognized content on a package element"));
        }
        let name = req_attr(e, "name")?;
        Ok(Package { name })
    }

    pub fn name(&self) -> (r: &str)
        ensures
            r@ == self.name@,
    {
        self.name.as_str()
    }
}

/// The documentation-format marker of a document. This scalar is informational
/// only, so an unrecognized string falls back to the unknown variant instead
/// of failing.
#[derive(Debug, Copy, Clone, PartialEq, Eq, Structural)]
pub enum DocFormat {
    GtkDoc,
    GiDocgen,
    Unknown,
}

pub open spec fn doc_format_of(s: Seq<char>) -> DocFormat {
    if s == "gtk-doc"@ {
        DocFormat::GtkDoc
    } else if s == "gi-docgen"@ {
        DocFormat::GiDocgen
    } else {
        DocFormat::Unknown
    }
}

pub open spec fn doc_format_str(v: DocFormat) -> Seq<char> {
    match v {
        DocFormat::GtkDoc => "gtk-doc"@,
        DocFormat::GiDocgen => "gi-docgen"@,
        DocFormat::Unknown => ""@,
    }
}

impl DocFormat {
    /// Reads the scalar; this reading is total.
    pub fn parse(s: &str) -> (r: DocFormat)
        ensures
            r == doc_format_of(s@),
    {
        if str_eq(s, "gtk-doc") {
            DocFormat::GtkDoc
        } else if str_eq(s, "gi-docgen") {
            DocFormat::GiDocgen
        } else {
            DocFormat::Unknown
        }
    }

    pub fn as_str(&self) -> (r: &'static str)
        ensures
            r@ == doc_format_str(*self),
    {
        match self {
            DocFormat::GtkDoc => "gtk-doc",
            DocFormat::GiDocgen => "gi-docgen",
            DocFormat::Unknown => "",
        }
    }
}

/// The documentation-format codec round-trips: rendering then reading gives
/// the value back, the unknown variant rendering as the empty marker.
pub proof fn lemma_doc_format_round_trip(v: DocFormat)
    ensures
        doc_format_of(doc_format_str(v)) == v,
{
    reveal_strlit("gtk-doc");
    reveal_strlit("gi-docgen");
    reveal_strlit("");
    assert("gtk-doc"@.len() == 7 && "gi-docgen"@.len() == 9 && ""@.len() == 0);
}

/// The documentation-format attribute: absent reads as unknown.
pub open spec fn doc_format_attr(e: XmlElement) -> DocFormat {
    match attr_of(e, "doc:format"@) {
        None => DocFormat::Unknown,
        Some(s) => doc_format_of(s),
    }
}

} // verus!

verus! {

/// The root of one parsed document: package and include metadata around exactly one namespace.
#[derive(Debug)]
pub struct Repository {
    pub version: Option<Version>,
    pub c_identifier_prefixes: Option<String>,
    pub c_symbol_prefixes: Option<String>,
    pub xmlns: Option<String>,
    pub xmlns_c: Option<String>,
    pub xmlns_glib: Option<String>,
    pub xmlns_doc: Option<String>,
    pub doc_format: DocFormat,
    pub namespace: Namespace,
    pub includes: Vec<NamespaceInclude>,
    pub c_includes: Vec<HeaderInclude>,
    pub packages: Vec<Package>,
}

pub open spec fn repository_attr_names() -> Seq<Seq<char>> {
    seq![
        "version"@,
        "c:identifier-prefixes"@,
        "c:symbol-prefixes"@,
        "xmlns"@,
        "xmlns:c"@,
        "xmlns:glib"@,
        "xmlns:doc"@,
        "doc:format"@,
    ]
}

pub open spec fn repository_child_names() -> Seq<Seq<char>> {
    seq!["namespace"@, "include"@, "c:include"@, "package"@]
}

/// Whether a repository element maps onto the record without a structural error.
pub open spec fn repository_ok(e: XmlElement) -> bool {
    &&& attrs_within(e.attrs@, repository_attr_names())
    &&& tags_within(e.children@, repository_child_names())
    &&& match first_tagged(e.children@, "namespace"@) {
        Some(c) => namespace_ok(c),
        None => false,
    }
    &&& forall|i: int|
        0 <= i < tagged_children(e.children@, "include"@).len() ==> namespace_include_ok(
            #[trigger] tagged_children(e.children@, "include"@)[i],
        )
    &&& forall|i: int|
        0 <= i < tagged_children(e.children@, "c:include"@).len() ==> header_include_ok(
            #[trigger] tagged_children(e.children@, "c:include"@)[i],
        )
    &&& forall|i: int|
        0 <= i < tagged_children(e.children@, "package"@).len() ==> package_ok(
            #[trigger] tagged_children(e.children@, "package"@)[i],
        )
}

/// How a repository element maps onto the record, field for field.
pub open spec fn repository_matches(e: XmlElement, x: Repository) -> bool {
    &&& x.version == opt_version_attr(e, "version"@)
    &&& opt_view(x.c_identifier_prefixes) == attr_of(e, "c:identifier-prefixes"@)
    &&& opt_view(x.c_symbol_prefixes) == attr_of(e, "c:symbol-prefixes"@)
    &&& opt_view(x.xmlns) == attr_of(e, "xmlns"@)
    &&& opt_view(x.xmlns_c) == attr_of(e, "xmlns:c"@)
    &&& opt_view(x.xmlns_glib) == attr_of(e, "xmlns:glib"@)
    &&& opt_view(x.xmlns_doc) == attr_of(e, "xmlns:doc"@)
    &&& x.doc_format == doc_format_attr(e)
    &&& match first_tagged(e.children@, "namespace"@) {
        Some(c) => namespace_matches(c, x.namespace),
        None => false,
    }
    &&& x.includes@.len() == tagged_children(e.children@, "include"@).len()
    &&& forall|i: int|
        0 <= i < tagged_children(e.children@, "include"@).len() ==> namespace_include_matches(
            #[trigger] tagged_children(e.children@, "include"@)[i],
            x.includes@[i],
        )
    &&& x.c_includes@.len() == tagged_children(e.children@, "c:include"@).len()
    &&& forall|i: int|
        0 <= i < tagged_children(e.children@, "c:include"@).len() ==> header_include_matches(
            #[trigger] tagged_children(e.children@, "c:include"@)[i],
            x.c_includes@[i],
        )
    &&& x.packages@.len() == tagged_children(e.children@, "package"@).len()
    &&& forall|i: int|
        0 <= i < tagged_children(e.children@, "package"@).len() ==> package_matches(
            #[trigger] tagged_children(e.children@, "package"@)[i],
            x.packages@[i],
        )
}

fn collect_includes_of_repository(e: &XmlElement) -> (r: Result<Vec<NamespaceInclude>, ParserError>)
    ensures
        r matches Err(err) ==> err is Xml,
        r matches Ok(v) ==> v@.len() == tagged_children(e.children@, "include"@).len()
            && forall|i: int|
            0 <= i < tagged_children(e.children@, "include"@).len() ==> namespace_include_matches(
                #[trigger] tagged_children(e.children@, "include"@)[i],
                v@[i],
            ),
        r is Ok <==> forall|i: int|
            0 <= i < tagged_children(e.children@, "include"@).len() ==> namespace_include_ok(
                #[trigger] tagged_children(e.children@, "include"@)[i],
            ),
{
    let elems = children_tagged(e, "include");
    let ghost tc = tagged_children(e.children@, "include"@);
    let n = elems.len();
    let mut out: Vec<NamespaceInclude> = Vec::new();
    let mut i: usize = 0;
    while i < n
        invariant
            n == elems@.len(),
            derefs(elems@) == tc,
            tc == tagged_children(e.children@, "include"@),
            i <= n,
            out@.len() == i,
            forall|j: int| 0 <= j < i ==> namespace_include_matches(#[trigger] tc[j], out@[j]),
            forall|j: int| 0 <= j < i ==> namespace_include_ok(#[trigger] tc[j]),
        decreases n - i,
    {
        proof {
            assert(tc[i as int] == derefs(elems@)[i as int]);
        }
        match NamespaceInclude::from_element(elems[i]) {
            Ok(a) => {
                out.push(a);
            },
            Err(er) => {
                return Err(er);
            },
        }
        i += 1;
    }
    Ok(out)
}

fn collect_c_includes_of_repository(e: &XmlElement) -> (r: Result<Vec<HeaderInclude>, ParserError>)
    ensures
        r matches Err(err) ==> err is Xml,
        r matches Ok(v) ==> v@.len() == tagged_children(e.children@, "c:include"@).len()
            && forall|i: int|
            0 <= i < tagged_children(e.children@, "c:include"@).len() ==> header_include_matches(
                #[trigger] tagged_children(e.children@, "c:include"@)[i],
                v@[i],
            ),
        r is Ok <==> forall|i: int|
            0 <= i < tagged_children(e.children@, "c:include"@).len() ==> header_include_ok(
                #[trigger] tagged_children(e.children@, "c:include"@)[i],
            ),
{
    let elems = children_tagged(e, "c:include");
    let ghost tc = tagged_children(e.children@, "c:include"@);
    let n = elems.len();
    let mut out: Vec<HeaderInclude> = Vec::new();
    let mut i: usize = 0;
    while i < n
        invariant
            n == elems@.len(),
            derefs(elems@) == tc,
            tc == tagged_children(e.children@, "c:include"@),
            i <= n,
            out@.len() == i,
            forall|j: int| 0 <= j < i ==> header_include_matches(#[trigger] tc[j], out@[j]),
            forall|j: int| 0 <= j < i ==> header_include_ok(#[trigger] tc[j]),
        decreases n - i,
    {
        proof {
            assert(tc[i as int] == derefs(elems@)[i as int]);
        }
        match HeaderInclude::from_element(elems[i]) {
            Ok(a) => {
                out.push(a);
            },
            Err(er) => {
                return Err(er);
            },
        }
        i += 1;
    }
    Ok(out)
}

fn collect_packages_of_repository(e: &XmlElement) -> (r: Result<Vec<Package>, ParserError>)
    ensures
        r matches Err(err) ==> err is Xml,
        r matches Ok(v) ==> v@.len() == tagged_children(e.children@, "package"@).len()
            && forall|i: int|
            0 <= i < tagged_children(e.children@, "package"@).len() ==> package_matches(
                #[trigger] tagged_children(e.children@, "package"@)[i],
                v@[i],
            ),
        r is Ok <==> forall|i: int|
            0 <= i < tagged_children(e.children@, "package"@).len() ==> package_ok(
                #[trigger] tagged_children(e.children@, "package"@)[i],
            ),
{
    let elems = children_tagged(e, "package");
    let ghost tc = tagged_children(e.children@, "package"@);
    let n = elems.len();
    let mut out: Vec<Package> = Vec::new();
    let mut i: usize = 0;
    while i < n
        invariant
            n == elems@.len(),
            derefs(elems@) == tc,
            tc == tagged_children(e.children@, "package"@),
            i <= n,
            out@.len() == i,
            forall|j: int| 0 <= j < i ==> package_matches(#[trigger] tc[j], out@[j]),
            forall|j: int| 0 <= j < i ==> package_ok(#[trigger] tc[j]),
        decreases n - i,
    {
        proof {
            assert(tc[i as int] == derefs(elems@)[i as int]);
        }
        match Package::from_element(elems[i]) {
            Ok(a) => {
                out.push(a);
            },
            Err(er) => {
                return Err(er);
            },
        }
        i += 1;
    }
    Ok(out)
}

impl Repository {
    pub fn from_element(e: &XmlElement) -> (r: Result<Repository, ParserError>)
        ensures
            r matches Err(err) ==> err is Xml,
            r matches Ok(x) ==> repository_matches(*e, x),
            r is Ok <==> repository_ok(*e),
    {
        let attr_names: [&str; 8] = [
            "version",
            "c:identifier-prefixes",
            "c:symbol-prefixes",
            "xmlns",
            "xmlns:c",
            "xmlns:glib",
            "xmlns:doc",
            "doc:format",
        ];
        let child_names: [&str; 4] = [
            "namespace",
            "include",
            "c:include",
            "package",
        ];
        let within = check_attrs_within(e, &attr_names) && check_tags_within(e, &child_names);
        proof {
            assert(names_view(attr_names@) =~= repository_attr_names());
            assert(names_view(child_names@) =~= repository_child_names());
        }
        if !within {
            return Err(crate::xml_error("unrecognized content on an element"));
        }
        let version = attr_opt_version(e, "version");
        let c_identifier_prefixes = attr_string(e, "c:identifier-prefixes");
        let c_symbol_prefixes = attr_string(e, "c:symbol-prefixes");
        let xmlns = attr_string(e, "xmlns");
        let xmlns_c = attr_string(e, "xmlns:c");
        let xmlns_glib = attr_string(e, "xmlns:glib");
        let xmlns_doc = attr_string(e, "xmlns:doc");
        let doc_format = match crate::xml::find_attr(e, "doc:format") {
            Some(s) => DocFormat::parse(s.as_str()),
            None => DocFormat::Unknown,
        };
        let namespace = match first_child(e, "namespace") {
            Some(c) => Namespace::from_element(c)?,
            None => {
                return Err(crate::xml_error("a required child element is absent"));
            },
        };
        let includes = collect_includes_of_repository(e)?;
        let c_includes = collect_c_includes_of_repository(e)?;
        let packages = collect_packages_of_repository(e)?;
        Ok(Repository {
            version,
            c_identifier_prefixes,
            c_symbol_prefixes,
            xmlns,
            xmlns_c,
            xmlns_glib,
            xmlns_doc,
            doc_format,
            namespace,
            includes,
            c_includes,
            packages,
        })
    }

    /// Reads one document from in-memory text, producing the repository or
    /// the first structural error: it succeeds whenever the text reads as a
    /// repository document, and the result is what the text carries.
    pub fn from_str(content: &str) -> (r: Result<Repository, ParserError>)
        ensures
            r matches Ok(repo) ==> repository_text_rep(content@, repo),
            repository_text_ok(content@) ==> r is Ok,
            r matches Err(err) ==> err is Xml,
    {
        let root = match crate::xmlio::parse_document(content) {
            Ok(root) => root,
            Err(m) => {
                proof {
                    if repository_text_ok(content@) {
                        lemma_repository_ok_elim(content@);
                    }
                }
                return Err(ParserError::Xml(m));
            },
        };
        proof {
            assert(text_document_rep(content@, root));
        }
        if !str_eq(root.tag.as_str(), "repository") {
            proof {
                if repository_text_ok(content@) {
                    lemma_repository_ok_elim(content@);
                }
            }
            return Err(crate::xml_error("the root element is not a repository"));
        }
        let repo = match Repository::from_element(&root) {
            Ok(repo) => repo,
            Err(e) => {
                proof {
                    if repository_text_ok(content@) {
                        lemma_repository_ok_elim(content@);
                    }
                }
                return Err(e);
            },
        };
        proof {
            lemma_repository_rep_intro(content@, root, repo);
        }
        Ok(repo)
    }

    pub fn version(&self) -> (r: Option<&Version>)
        ensures
            opt_deref(r) == self.version,
    {
        self.version.as_ref()
    }

    pub fn c_identifier_prefixes(&self) -> (r: Option<&str>)
        ensures
            opt_view(r) == opt_view(self.c_identifier_prefixes),
    {
        opt_as_str(&self.c_identifier_prefixes)
    }

    pub fn c_symbol_prefixes(&self) -> (r: Option<&str>)
        ensures
            opt_view(r) == opt_view(self.c_symbol_prefixes),
    {
        opt_as_str(&self.c_symbol_prefixes)
    }

    pub fn namespace_includes(&self) -> (r: &[NamespaceInclude])
        ensures
            r@ == self.includes@,
    {
        self.includes.as_slice()
    }

    pub fn header_includes(&self) -> (r: &[HeaderInclude])
        ensures
            r@ == self.c_includes@,
    {
        self.c_includes.as_slice()
    }

    pub fn packages(&self) -> (r: &[Package])
        ensures
            r@ == self.packages@,
    {
        self.packages.as_slice()
    }

    pub fn namespace(&self) -> (r: &Namespace)
        ensures
            *r == self.namespace,
    {
        &self.namespace
    }

    pub fn doc_format(&self) -> (r: DocFormat)
        ensures
            r == self.doc_format,
    {
        self.doc_format
    }
}

} // verus!

verus! {

/// One candidate file of a directory: its name and its text.
/// (See below for the directory itself and the ranked well-formedness that
/// makes a whole directory resolvable.)
#[derive(Debug)]
pub struct GirFile {
    pub name: String,
    pub content: String,
}

/// An in-memory directory of candidate files, handed in by whatever read them
/// from disk.
#[derive(Debug)]
pub struct GirDirectory {
    pub files: Vec<GirFile>,
}

pub open spec fn dir_names(d: GirDirectory) -> Seq<Seq<char>> {
    Seq::new(d.files@.len(), |i: int| d.files@[i].name@)
}

/// The content of the first file with the given name, if any.
pub open spec fn files_lookup(fs: Seq<GirFile>, name: Seq<char>) -> Option<Seq<char>>
    decreases fs.len(),
{
    if fs.len() == 0 {
        None
    } else if fs[0].name@ == name {
        Some(fs[0].content@)
    } else {
        files_lookup(fs.skip(1), name)
    }
}

impl GirDirectory {
    pub fn lookup<'a>(&'a self, name: &str) -> (r: Option<&'a String>)
        ensures
            opt_view(r) == files_lookup(self.files@, name@),
            r is Some ==> dir_names(*self).contains(name@),
    {
        let n = self.files.len();
        let mut i: usize = 0;
        proof {
            assert(self.files@.skip(0) =~= self.files@);
        }
        while i < n
            invariant
                n == self.files@.len(),
                i <= n,
                files_lookup(self.files@, name@) == files_lookup(
                    self.files@.skip(i as int),
                    name@,
                ),
            decreases n - i,
        {
            proof {
                assert(self.files@.skip(i as int)[0] == self.files@[i as int]);
                assert(self.files@.skip(i as int).skip(1) =~= self.files@.skip(i as int + 1));
            }
            if str_eq(self.files[i].name.as_str(), name) {
                proof {
                    assert(dir_names(*self)[i as int] == name@);
                }
                return Some(&self.files[i].content);
            }
            i += 1;
        }
        proof {
            assert(self.files@.skip(n as int) =~= Seq::<GirFile>::empty());
        }
        None
    }
}

/// A named candidate is found by lookup.
proof fn lemma_lookup_present(fs: Seq<GirFile>, name: Seq<char>)
    requires
        exists|i: int| 0 <= i < fs.len() && #[trigger] fs[i].name@ == name,
    ensures
        files_lookup(fs, name) is Some,
    decreases fs.len(),
{
    if fs.len() > 0 && fs[0].name@ != name {
        let i = choose|i: int| 0 <= i < fs.len() && #[trigger] fs[i].name@ == name;
        assert(fs.skip(1)[i - 1].name@ == name);
        lemma_lookup_present(fs.skip(1), name);
    }
}

/// A successful lookup names a candidate.
proof fn lemma_lookup_names(fs: Seq<GirFile>, name: Seq<char>)
    requires
        files_lookup(fs, name) is Some,
    ensures
        exists|i: int| 0 <= i < fs.len() && #[trigger] fs[i].name@ == name,
    decreases fs.len(),
{
    if fs.len() > 0 {
        if fs[0].name@ == name {
            assert(fs[0].name@ == name);
        } else {
            lemma_lookup_names(fs.skip(1), name);
            let i = choose|i: int| 0 <= i < fs.skip(1).len() && #[trigger] fs.skip(1)[i].name@
                == name;
            assert(fs[i + 1].name@ == name);
        }
    }
}

/// Every candidate file of the directory reads back as a repository document:
/// resolution then never raises the structural error.
pub open spec fn dir_parses(d: GirDirectory) -> bool {
    forall|i: int|
        0 <= i < d.files@.len() ==> (files_lookup(d.files@, (#[trigger] d.files@[i]).name@)
            matches Some(c) && repository_text_ok(c))
}

/// Every include of every candidate file that reads names a directory file:
/// resolution from a directory file then never raises the read failure.
pub open spec fn dir_within(d: GirDirectory) -> bool {
    forall|i: int|
        0 <= i < d.files@.len() ==> {
            let name = (#[trigger] d.files@[i]).name@;
            match files_lookup(d.files@, name) {
                Some(c) => forall|r: Repository, j: int|
                    #![trigger repository_text_rep(c, r), r.includes@[j]]
                    repository_text_rep(c, r) && 0 <= j < r.includes@.len() ==> dir_names(
                        d,
                    ).contains(include_package_file(r.includes@[j])),
                None => true,
            }
        }
}

/// A directory reads when every candidate file reads back and every include
/// names a directory file: resolution on such a directory can fail only with
/// the explicit cycle error.
pub open spec fn dir_reads(d: GirDirectory) -> bool {
    &&& dir_parses(d)
    &&& dir_within(d)
}

/// What a parsing directory gives for one found file.
proof fn lemma_parses_file(d: GirDirectory, name: Seq<char>)
    requires
        dir_parses(d),
        files_lookup(d.files@, name) is Some,
    ensures
        files_lookup(d.files@, name) matches Some(c) && repository_text_ok(c),
{
    lemma_lookup_names(d.files@, name);
    let i = choose|i: int| 0 <= i < d.files@.len() && #[trigger] d.files@[i].name@ == name;
    assert(files_lookup(d.files@, d.files@[i].name@) matches Some(c) && repository_text_ok(c));
}

/// What an include-closed directory gives for one found file.
proof fn lemma_within_file(d: GirDirectory, name: Seq<char>)
    requires
        dir_within(d),
        files_lookup(d.files@, name) is Some,
    ensures
        forall|r: Repository, j: int|
            #![trigger repository_text_rep(files_lookup(d.files@, name)->Some_0, r), r.includes@[j]]
            repository_text_rep(files_lookup(d.files@, name)->Some_0, r) && 0 <= j
                < r.includes@.len() ==> dir_names(d).contains(
                include_package_file(r.includes@[j]),
            ),
{
    lemma_lookup_names(d.files@, name);
    let i = choose|i: int| 0 <= i < d.files@.len() && #[trigger] d.files@[i].name@ == name;
    assert(files_lookup(d.files@, d.files@[i].name@) is Some);
}

/// A directory is ranked when it reads and every include names a directory
/// file of strictly smaller rank: such a ranking witnesses that the include
/// graph is acyclic, and resolution is then owed success.
pub open spec fn dir_ranked(d: GirDirectory, rank: spec_fn(Seq<char>) -> nat) -> bool {
    &&& dir_reads(d)
    &&& forall|i: int|
        0 <= i < d.files@.len() ==> {
            let name = (#[trigger] d.files@[i]).name@;
            forall|r: Repository, j: int|
                #![trigger repository_text_rep(files_lookup(d.files@, name)->Some_0, r), r.includes@[j]]
                repository_text_rep(files_lookup(d.files@, name)->Some_0, r) && 0 <= j
                    < r.includes@.len() ==> rank(include_package_file(r.includes@[j])) < rank(name)
        }
}

/// What a readable directory gives for one named file.
proof fn lemma_reads_file(d: GirDirectory, name: Seq<char>)
    requires
        dir_reads(d),
        dir_names(d).contains(name),
    ensures
        files_lookup(d.files@, name) matches Some(c) && repository_text_ok(c),
        forall|r: Repository, j: int|
            #![trigger repository_text_rep(files_lookup(d.files@, name)->Some_0, r), r.includes@[j]]
            repository_text_rep(files_lookup(d.files@, name)->Some_0, r) && 0 <= j
                < r.includes@.len() ==> dir_names(d).contains(
                include_package_file(r.includes@[j]),
            ),
{
    let i = choose|i: int| 0 <= i < dir_names(d).len() && dir_names(d)[i] == name;
    assert(d.files@[i].name@ == name);
    lemma_lookup_present(d.files@, name);
    lemma_parses_file(d, name);
    lemma_within_file(d, name);
}

/// What a ranked directory gives for one named file, beyond reading.
proof fn lemma_ranked_file(d: GirDirectory, rank: spec_fn(Seq<char>) -> nat, name: Seq<char>)
    requires
        dir_ranked(d, rank),
        dir_names(d).contains(name),
    ensures
        files_lookup(d.files@, name) matches Some(c) && repository_text_ok(c),
        forall|r: Repository, j: int|
            #![trigger repository_text_rep(files_lookup(d.files@, name)->Some_0, r), r.includes@[j]]
            repository_text_rep(files_lookup(d.files@, name)->Some_0, r) && 0 <= j
                < r.includes@.len() ==> dir_names(d).contains(
                include_package_file(r.includes@[j]),
            ) && rank(include_package_file(r.includes@[j])) < rank(name),
{
    lemma_reads_file(d, name);
    let i = choose|i: int| 0 <= i < dir_names(d).len() && dir_names(d)[i] == name;
    assert(d.files@[i].name@ == name);
}

/// Every listed name sits strictly above this one in rank.
pub open spec fn rank_below(names: Seq<Seq<char>>, name: Seq<char>, rank: spec_fn(
    Seq<char>,
) -> nat) -> bool {
    forall|k: int| 0 <= k < names.len() ==> rank(name) < rank(#[trigger] names[k])
}

/// The dependency-resolved mapping from package file name to its parsed
/// repository, in insertion order.
#[derive(Debug)]
pub struct RepositoryMap {
    pub entries: Vec<(String, Repository)>,
}

pub open spec fn map_keys(m: RepositoryMap) -> Seq<Seq<char>> {
    Seq::new(m.entries@.len(), |i: int| m.entries@[i].0@)
}

pub open spec fn map_has(m: RepositoryMap, k: Seq<char>) -> bool {
    map_keys(m).contains(k)
}

/// Each file name keys at most one entry.
pub open spec fn map_wf(m: RepositoryMap) -> bool {
    forall|i: int, j: int|
        0 <= i < j < m.entries@.len() ==> #[trigger] m.entries@[i].0@ != #[trigger] m.entries@[j].0@
}

/// Every include of this repository is present in the mapping.
pub open spec fn includes_resolved(rep: Repository, m: RepositoryMap) -> bool {
    forall|j: int|
        0 <= j < rep.includes@.len() ==> map_has(m, include_package_file(#[trigger] rep.includes@[j]))
}

/// The mapping is dependency-closed: every include of every entry is itself an
/// entry.
pub open spec fn map_closed(m: RepositoryMap) -> bool {
    forall|i: int|
        0 <= i < m.entries@.len() ==> includes_resolved(#[trigger] m.entries@[i].1, m)
}

/// Every include of this repository is named by one of the given keys.
pub open spec fn keys_have(keys: Seq<Seq<char>>, rep: Repository) -> bool {
    forall|j: int|
        0 <= j < rep.includes@.len() ==> keys.contains(
            include_package_file(#[trigger] rep.includes@[j]),
        )
}

/// The mapping is resolved in dependency order: every include of the entry at
/// a step is already present among the entries of the earlier steps, the
/// standard post-order of dependency resolution.
pub open spec fn map_ordered(m: RepositoryMap) -> bool {
    forall|i: int|
        0 <= i < m.entries@.len() ==> keys_have(map_keys(m).take(i), #[trigger] m.entries@[i].1)
}

/// Dependency order implies dependency closure.
pub proof fn lemma_map_ordered_closed(m: RepositoryMap)
    requires
        map_ordered(m),
    ensures
        map_closed(m),
{
    assert forall|i: int| 0 <= i < m.entries@.len() implies includes_resolved(
        #[trigger] m.entries@[i].1,
        m,
    ) by {
        assert(keys_have(map_keys(m).take(i), m.entries@[i].1));
        assert forall|j: int| 0 <= j < m.entries@[i].1.includes@.len() implies map_has(
            m,
            include_package_file(#[trigger] m.entries@[i].1.includes@[j]),
        ) by {
            let f = include_package_file(m.entries@[i].1.includes@[j]);
            assert(map_keys(m).take(i).contains(f));
            let k = choose|k: int| 0 <= k < i && map_keys(m).take(i)[k] == f;
            assert(map_keys(m)[k] == f);
        }
    }
}

/// Whatever holds a key keeps holding it when entries are appended.
proof fn lemma_map_has_extend(m1: RepositoryMap, m2: RepositoryMap, k: Seq<char>)
    requires
        m1.entries@.is_prefix_of(m2.entries@),
        map_has(m1, k),
    ensures
        map_has(m2, k),
{
    let i = choose|i: int| 0 <= i < map_keys(m1).len() && map_keys(m1)[i] == k;
    assert(m2.entries@[i] == m1.entries@[i]);
    assert(map_keys(m2)[i] == k);
}

impl RepositoryMap {
    /// An empty mapping.
    pub fn new() -> (r: RepositoryMap)
        ensures
            r.entries@ == Seq::<(String, Repository)>::empty(),
            map_wf(r),
            map_closed(r),
            map_ordered(r),
    {
        RepositoryMap { entries: Vec::new() }
    }

    pub fn len(&self) -> (r: usize)
        ensures
            r == self.entries@.len(),
    {
        self.entries.len()
    }

    pub fn contains_key(&self, k: &str) -> (r: bool)
        ensures
            r == map_has(*self, k@),
    {
        let n = self.entries.len();
        let mut i: usize = 0;
        while i < n
            invariant
                n == self.entries@.len(),
                i <= n,
                forall|j: int| 0 <= j < i ==> map_keys(*self)[j] != k@,
            decreases n - i,
        {
            if str_eq(self.entries[i].0.as_str(), k) {
                proof {
                    assert(map_keys(*self)[i as int] == k@);
                }
                return true;
            }
            i += 1;
        }
        proof {
            assert(forall|j: int| 0 <= j < map_keys(*self).len() ==> map_keys(*self)[j] != k@);
        }
        false
    }

    /// The repository the mapping holds under this file name, if any.
    pub fn get<'a>(&'a self, k: &str) -> (r: Option<&'a Repository>)
        ensures
            r is Some <==> map_has(*self, k@),
            r matches Some(rep) ==> exists|i: int|
                0 <= i < self.entries@.len() && self.entries@[i].0@ == k@
                    && #[trigger] self.entries@[i].1 == *rep,
    {
        let n = self.entries.len();
        let mut i: usize = 0;
        while i < n
            invariant
                n == self.entries@.len(),
                i <= n,
                forall|j: int| 0 <= j < i ==> map_keys(*self)[j] != k@,
            decreases n - i,
        {
            if str_eq(self.entries[i].0.as_str(), k) {
                proof {
                    assert(map_keys(*self)[i as int] == k@);
                    assert(self.entries@[i as int].0@ == k@ && self.entries@[i as int].1
                        == self.entries@[i as int].1);
                }
                return Some(&self.entries[i].1);
            }
            i += 1;
        }
        proof {
            assert(forall|j: int| 0 <= j < map_keys(*self).len() ==> map_keys(*self)[j] != k@);
        }
        None
    }

    /// Inserts a repository under a file name not yet present.
    pub fn insert(&mut self, k: String, rep: Repository)
        requires
            !map_has(*old(self), k@),
        ensures
            final(self).entries@ == old(self).entries@.push((k, rep)),
    {
        self.entries.push((k, rep));
    }
}

pub open spec fn strs_contains(v: Seq<String>, x: Seq<char>) -> bool {
    exists|i: int| 0 <= i < v.len() && v[i]@ == x
}

fn vec_contains_str(v: &Vec<String>, x: &str) -> (r: bool)
    ensures
        r == strs_contains(v@, x@),
{
    let n = v.len();
    let mut i: usize = 0;
    while i < n
        invariant
            n == v@.len(),
            i <= n,
            forall|j: int| 0 <= j < i ==> v@[j]@ != x@,
        decreases n - i,
    {
        if str_eq(v[i].as_str(), x) {
            return true;
        }
        i += 1;
    }
    false
}

/// A set of distinct names drawn from a pool is no larger than the pool.
proof fn lemma_distinct_within(vs: Seq<Seq<char>>, pool: Seq<Seq<char>>)
    requires
        vs.no_duplicates(),
        forall|i: int| 0 <= i < vs.len() ==> pool.contains(#[trigger] vs[i]),
    ensures
        vs.len() <= pool.len(),
{
    broadcast use vstd::seq_lib::seq_to_set_is_finite;

    vs.unique_seq_to_set();
    pool.lemma_cardinality_of_set();
    assert(vs.to_set().subset_of(pool.to_set()));
    vstd::set_lib::lemma_len_subset(vs.to_set(), pool.to_set());
}

} // verus!

verus! {

/// The recursive, cache-aware resolution step. A candidate file is parsed
/// unconditionally, and the fresh copy discarded when the file turns out to be
/// cached already: one redundant parse, never a second cache entry. The marker
/// list holds the files whose resolution is under way: meeting one of them
/// again is the explicit cycle error, not unbounded recursion.
#[verifier::spinoff_prover]
fn resolve_into(
    cache: &mut RepositoryMap,
    in_progress: &mut Vec<String>,
    package_file: &str,
    girs_dirs: &GirDirectory,
    Ghost(rank): Ghost<spec_fn(Seq<char>) -> nat>,
) -> (r: Result<(), ParserError>)
    requires
        map_wf(*old(cache)),
        map_ordered(*old(cache)),
        strs_view(old(in_progress)@).no_duplicates(),
        forall|i: int|
            0 <= i < old(in_progress)@.len() ==> dir_names(*girs_dirs).contains(
                #[trigger] strs_view(old(in_progress)@)[i],
            ),
    ensures
        map_wf(*final(cache)),
        map_ordered(*final(cache)),
        old(cache).entries@.is_prefix_of(final(cache).entries@),
        forall|i: int|
            old(cache).entries@.len() <= i < final(cache).entries@.len() ==> dir_names(
                *girs_dirs,
            ).contains(#[trigger] final(cache).entries@[i].0@),
        r is Ok ==> map_has(*final(cache), package_file@),
        r is Ok ==> final(in_progress)@ == old(in_progress)@,
        forall|i: int|
            old(cache).entries@.len() <= i < final(cache).entries@.len() ==> (files_lookup(
                girs_dirs.files@,
                #[trigger] final(cache).entries@[i].0@,
            ) matches Some(c) && repository_text_rep(c, final(cache).entries@[i].1)),
        files_lookup(girs_dirs.files@, package_file@) is None ==> (r matches Err(e) && e is IO),
        map_has(*old(cache), package_file@) && (files_lookup(girs_dirs.files@, package_file@)
            matches Some(c) && repository_text_ok(c)) ==> r is Ok && *final(cache) == *old(cache)
            && final(in_progress)@ == old(in_progress)@,
        !map_has(*old(cache), package_file@) && strs_contains(old(in_progress)@, package_file@)
            && (files_lookup(girs_dirs.files@, package_file@) matches Some(c)
            && repository_text_ok(c)) ==> (r matches Err(e) && e is Cycle),
        dir_ranked(*girs_dirs, rank) && dir_names(*girs_dirs).contains(package_file@)
            && rank_below(strs_view(old(in_progress)@), package_file@, rank) ==> r is Ok,
        dir_reads(*girs_dirs) && dir_names(*girs_dirs).contains(package_file@) ==> (r is Ok || (
        r matches Err(e) && e is Cycle)),
        dir_parses(*girs_dirs) ==> (r is Ok || (r matches Err(e) && (e is IO || e is Cycle))),
        dir_within(*girs_dirs) && dir_names(*girs_dirs).contains(package_file@) ==> (r is Ok || (
        r matches Err(e) && (e is Xml || e is Cycle))),
    decreases girs_dirs.files@.len() - old(in_progress)@.len(), 0int,
{
    proof {
        assert(old(cache).entries@.is_prefix_of(cache.entries@)) by {
            assert(cache.entries@.take(cache.entries@.len() as int) =~= cache.entries@);
        }
    }
    let ghost hyp = dir_ranked(*girs_dirs, rank) && dir_names(*girs_dirs).contains(
        package_file@,
    ) && rank_below(strs_view(old(in_progress)@), package_file@, rank);
    let ghost hyp2 = dir_reads(*girs_dirs) && dir_names(*girs_dirs).contains(package_file@);
    let ghost hyp3 = dir_parses(*girs_dirs);
    let ghost hyp4 = dir_within(*girs_dirs) && dir_names(*girs_dirs).contains(package_file@);
    let content = match girs_dirs.lookup(package_file) {
        Some(c) => c,
        None => {
            proof {
                if hyp {
                    lemma_ranked_file(*girs_dirs, rank, package_file@);
                }
                if hyp2 {
                    lemma_reads_file(*girs_dirs, package_file@);
                }
                if hyp4 {
                    let i = choose|i: int|
                        0 <= i < dir_names(*girs_dirs).len() && dir_names(*girs_dirs)[i]
                            == package_file@;
                    assert(girs_dirs.files@[i].name@ == package_file@);
                    lemma_lookup_present(girs_dirs.files@, package_file@);
                }
            }
            return Err(ParserError::IO("a candidate file is absent from the directory".to_owned()));
        },
    };
    let ghost cv = content@;
    let repo = match Repository::from_str(content.as_str()) {
        Ok(r) => r,
        Err(e) => {
            proof {
                if hyp {
                    lemma_ranked_file(*girs_dirs, rank, package_file@);
                    assert(files_lookup(girs_dirs.files@, package_file@) == Some(cv));
                }
                if hyp2 {
                    lemma_reads_file(*girs_dirs, package_file@);
                    assert(files_lookup(girs_dirs.files@, package_file@) == Some(cv));
                }
                if hyp3 {
                    lemma_parses_file(*girs_dirs, package_file@);
                    assert(files_lookup(girs_dirs.files@, package_file@) == Some(cv));
                }
            }
            return Err(e);
        },
    };
    proof {
        assert(files_lookup(girs_dirs.files@, package_file@) == Some(cv));
        assert(repository_text_rep(cv, repo));
    }
    if cache.contains_key(package_file) {
        return Ok(());
    }
    if vec_contains_str(in_progress, package_file) {
        proof {
            if hyp {
                let k = choose|k: int|
                    0 <= k < in_progress@.len() && in_progress@[k]@ == package_file@;
                assert(strs_view(old(in_progress)@)[k] == package_file@);
                assert(rank(package_file@) < rank(strs_view(old(in_progress)@)[k]));
            }
        }
        return Err(ParserError::Cycle("the include graph has a cycle".to_owned()));
    }
    in_progress.push(package_file.to_owned());
    let ghost marked = in_progress@;
    proof {
        assert(strs_view(marked).drop_last() =~= strs_view(old(in_progress)@));
        assert(strs_view(marked).last() == package_file@);
        assert forall|i: int| 0 <= i < marked.len() implies dir_names(*girs_dirs).contains(
            #[trigger] strs_view(marked)[i],
        ) by {
            if i < marked.len() - 1 {
                assert(strs_view(marked)[i] == strs_view(old(in_progress)@)[i]);
            }
        }
        assert(strs_view(marked).no_duplicates()) by {
            assert forall|i: int, j: int|
                0 <= i < j < strs_view(marked).len() implies strs_view(marked)[i] != strs_view(
                marked,
            )[j] by {
                if j < marked.len() - 1 {
                    assert(strs_view(marked)[i] == strs_view(old(in_progress)@)[i]);
                    assert(strs_view(marked)[j] == strs_view(old(in_progress)@)[j]);
                } else {
                    assert(strs_view(marked)[i] == strs_view(old(in_progress)@)[i]);
                    assert(!strs_contains(old(in_progress)@, package_file@));
                }
            }
        }
        lemma_distinct_within(strs_view(marked), dir_names(*girs_dirs));
    }
    let ghost cache_before = *cache;
    let res = resolve_includes(
        cache,
        in_progress,
        &repo,
        package_file,
        girs_dirs,
        Ghost(rank),
        Ghost(cv),
    );
    match res {
        Ok(()) => {},
        Err(e) => {
            proof {
                if hyp {
                    assert(res is Ok);
                }
            }
            return Err(e);
        },
    }
    let popped = in_progress.pop();
    proof {
        assert(in_progress@ =~= old(in_progress)@) by {
            assert(marked.drop_last() =~= old(in_progress)@);
        }
    }
    if !cache.contains_key(package_file) {
        let ghost before_insert = *cache;
        let key = package_file.to_owned();
        let ghost gkey = key;
        let ghost grepo = repo;
        cache.insert(key, repo);
        proof {
            assert(before_insert.entries@.is_prefix_of(cache.entries@)) by {
                assert(before_insert.entries@ =~= cache.entries@.take(
                    before_insert.entries@.len() as int,
                ));
            }
            assert(map_wf(*cache)) by {
                assert forall|a: int, b: int|
                    0 <= a < b < cache.entries@.len() implies #[trigger] cache.entries@[a].0@
                    != #[trigger] cache.entries@[b].0@ by {
                    if b == cache.entries@.len() - 1 {
                        assert(map_keys(before_insert)[a] == cache.entries@[a].0@);
                        assert(!map_has(before_insert, package_file@));
                    }
                }
            }
            assert(includes_resolved(grepo, *cache)) by {
                assert forall|j: int| 0 <= j < grepo.includes@.len() implies map_has(
                    *cache,
                    include_package_file(#[trigger] grepo.includes@[j]),
                ) by {
                    lemma_map_has_extend(
                        before_insert,
                        *cache,
                        include_package_file(grepo.includes@[j]),
                    );
                }
            }
            assert(map_ordered(*cache)) by {
                let nl = cache.entries@.len() - 1;
                assert(map_keys(*cache).take(nl) =~= map_keys(before_insert));
                assert(keys_have(map_keys(before_insert), grepo));
                assert forall|a: int| 0 <= a < cache.entries@.len() implies keys_have(
                    map_keys(*cache).take(a),
                    #[trigger] cache.entries@[a].1,
                ) by {
                    if a < nl {
                        assert(cache.entries@[a] == before_insert.entries@[a]);
                        assert(map_keys(*cache).take(a) =~= map_keys(before_insert).take(a));
                        assert(keys_have(
                            map_keys(before_insert).take(a),
                            before_insert.entries@[a].1,
                        ));
                    } else {
                        assert(cache.entries@[a].1 == grepo);
                    }
                }
            }
            assert(map_has(*cache, package_file@)) by {
                assert(map_keys(*cache)[cache.entries@.len() - 1] == package_file@);
            }
            assert(cache.entries@[cache.entries@.len() - 1].0@ == package_file@);
            assert(cache.entries@[cache.entries@.len() - 1].1 == grepo);
            assert(cache_before.entries@.is_prefix_of(cache.entries@)) by {
                assert(cache_before.entries@ =~= cache.entries@.take(
                    cache_before.entries@.len() as int,
                ));
            }
        }
    }
    Ok(())
}

/// Resolves every include of a freshly parsed repository into the cache, in
/// declaration order, skipping those already cached.
#[verifier::spinoff_prover]
fn resolve_includes(
    cache: &mut RepositoryMap,
    in_progress: &mut Vec<String>,
    repo: &Repository,
    package_file: &str,
    girs_dirs: &GirDirectory,
    Ghost(rank): Ghost<spec_fn(Seq<char>) -> nat>,
    Ghost(cv): Ghost<Seq<char>>,
) -> (r: Result<(), ParserError>)
    requires
        map_wf(*old(cache)),
        map_ordered(*old(cache)),
        strs_view(old(in_progress)@).no_duplicates(),
        forall|i: int|
            0 <= i < old(in_progress)@.len() ==> dir_names(*girs_dirs).contains(
                #[trigger] strs_view(old(in_progress)@)[i],
            ),
        old(in_progress)@.len() > 0,
        strs_view(old(in_progress)@).last() == package_file@,
        files_lookup(girs_dirs.files@, package_file@) == Some(cv),
        repository_text_rep(cv, *repo),
    ensures
        map_wf(*final(cache)),
        map_ordered(*final(cache)),
        old(cache).entries@.is_prefix_of(final(cache).entries@),
        r is Ok ==> final(in_progress)@ == old(in_progress)@,
        forall|i: int|
            old(cache).entries@.len() <= i < final(cache).entries@.len() ==> dir_names(
                *girs_dirs,
            ).contains(#[trigger] final(cache).entries@[i].0@),
        forall|i: int|
            old(cache).entries@.len() <= i < final(cache).entries@.len() ==> (files_lookup(
                girs_dirs.files@,
                #[trigger] final(cache).entries@[i].0@,
            ) matches Some(c) && repository_text_rep(c, final(cache).entries@[i].1)),
        r is Ok ==> forall|j: int|
            0 <= j < repo.includes@.len() ==> map_has(
                *final(cache),
                include_package_file(#[trigger] repo.includes@[j]),
            ),
        dir_ranked(*girs_dirs, rank) && dir_names(*girs_dirs).contains(package_file@)
            && rank_below(
            strs_view(old(in_progress)@).drop_last(),
            package_file@,
            rank,
        ) ==> r is Ok,
        dir_reads(*girs_dirs) && dir_names(*girs_dirs).contains(package_file@) ==> (r is Ok || (
        r matches Err(e) && e is Cycle)),
        dir_parses(*girs_dirs) ==> (r is Ok || (r matches Err(e) && (e is IO || e is Cycle))),
        dir_within(*girs_dirs) && dir_names(*girs_dirs).contains(package_file@) ==> (r is Ok || (
        r matches Err(e) && (e is Xml || e is Cycle))),
    decreases girs_dirs.files@.len() - old(in_progress)@.len(), 1int,
{
    let ghost hyp = dir_ranked(*girs_dirs, rank) && dir_names(*girs_dirs).contains(
        package_file@,
    ) && rank_below(strs_view(old(in_progress)@).drop_last(), package_file@, rank);
    let ghost hyp2 = dir_reads(*girs_dirs) && dir_names(*girs_dirs).contains(package_file@);
    let ghost hyp3 = dir_parses(*girs_dirs);
    let ghost hyp4 = dir_within(*girs_dirs) && dir_names(*girs_dirs).contains(package_file@);
    let ghost cache_before = *cache;
    proof {
        assert(cache_before.entries@.is_prefix_of(cache.entries@)) by {
            assert(cache.entries@.take(cache.entries@.len() as int) =~= cache.entries@);
        }
    }
    let n = repo.includes.len();
    let mut i: usize = 0;
    while i < n
        invariant
            n == repo.includes@.len(),
            i <= n,
            cache_before == *old(cache),
            map_wf(*cache),
            map_ordered(*cache),
            in_progress@ == old(in_progress)@,
            strs_view(old(in_progress)@).no_duplicates(),
            forall|k: int|
                0 <= k < old(in_progress)@.len() ==> dir_names(*girs_dirs).contains(
                    #[trigger] strs_view(old(in_progress)@)[k],
                ),
            old(in_progress)@.len() > 0,
            strs_view(old(in_progress)@).last() == package_file@,
            files_lookup(girs_dirs.files@, package_file@) == Some(cv),
            repository_text_rep(cv, *repo),
            hyp == (dir_ranked(*girs_dirs, rank) && dir_names(*girs_dirs).contains(package_file@)
                && rank_below(strs_view(old(in_progress)@).drop_last(), package_file@, rank)),
            hyp2 == (dir_reads(*girs_dirs) && dir_names(*girs_dirs).contains(package_file@)),
            hyp3 == dir_parses(*girs_dirs),
            hyp4 == (dir_within(*girs_dirs) && dir_names(*girs_dirs).contains(package_file@)),
            cache_before.entries@.is_prefix_of(cache.entries@),
            forall|k: int|
                cache_before.entries@.len() <= k < cache.entries@.len() ==> dir_names(
                    *girs_dirs,
                ).contains(#[trigger] cache.entries@[k].0@),
            forall|k: int|
                cache_before.entries@.len() <= k < cache.entries@.len() ==> (files_lookup(
                    girs_dirs.files@,
                    #[trigger] cache.entries@[k].0@,
                ) matches Some(c) && repository_text_rep(c, cache.entries@[k].1)),
            forall|j: int|
                0 <= j < i ==> map_has(
                    *cache,
                    include_package_file(#[trigger] repo.includes@[j]),
                ),
        decreases n - i,
    {
        let ghost cache_iter = *cache;
        let file = repo.includes[i].as_package_file();
        if !cache.contains_key(file.as_str()) {
            proof {
                lemma_distinct_within(strs_view(in_progress@), dir_names(*girs_dirs));
                if hyp {
                    lemma_ranked_file(*girs_dirs, rank, package_file@);
                    assert(repository_text_rep(
                        files_lookup(girs_dirs.files@, package_file@)->Some_0,
                        *repo,
                    ));
                    assert(dir_names(*girs_dirs).contains(file@) && rank(file@) < rank(
                        package_file@,
                    ));
                    assert forall|k: int|
                        0 <= k < strs_view(in_progress@).len() implies rank(file@) < rank(
                        #[trigger] strs_view(in_progress@)[k],
                    ) by {
                        if k < in_progress@.len() - 1 {
                            assert(strs_view(in_progress@).drop_last()[k] == strs_view(
                                in_progress@,
                            )[k]);
                        } else {
                            assert(strs_view(in_progress@)[k] == strs_view(in_progress@).last());
                        }
                    }
                }
                if hyp2 {
                    lemma_reads_file(*girs_dirs, package_file@);
                    assert(repository_text_rep(
                        files_lookup(girs_dirs.files@, package_file@)->Some_0,
                        *repo,
                    ));
                    assert(dir_names(*girs_dirs).contains(file@));
                }
                if hyp4 {
                    lemma_within_file(*girs_dirs, package_file@);
                    assert(repository_text_rep(
                        files_lookup(girs_dirs.files@, package_file@)->Some_0,
                        *repo,
                    ));
                    assert(dir_names(*girs_dirs).contains(file@));
                }
            }
            let res = resolve_into(cache, in_progress, file.as_str(), girs_dirs, Ghost(rank));
            proof {
                lemma_step_bookkeeping(cache_before, cache_iter, *cache, *girs_dirs);
            }
            match res {
                Ok(()) => {},
                Err(e) => {
                    proof {
                        if hyp {
                            assert(res is Ok);
                        }
                        if hyp2 {
                            assert(e is Cycle);
                        }
                        if hyp3 {
                            assert(e is IO || e is Cycle);
                        }
                        if hyp4 {
                            assert(e is Xml || e is Cycle);
                        }
                    }
                    return Err(e);
                },
            }
        }
        proof {
            assert(map_has(*cache, include_package_file(repo.includes@[i as int])));
            assert forall|j: int| 0 <= j < i + 1 implies map_has(
                *cache,
                include_package_file(#[trigger] repo.includes@[j]),
            ) by {
                if j < i {
                    lemma_map_has_extend(
                        cache_iter,
                        *cache,
                        include_package_file(repo.includes@[j]),
                    );
                }
            }
        }
        i += 1;
    }
    Ok(())
}

/// Carries the per-step bookkeeping of the include loop over one recursive
/// resolution: prefixes compose, and every added entry stays in the directory
/// and a parse of its file.
proof fn lemma_step_bookkeeping(
    before: RepositoryMap,
    iter: RepositoryMap,
    now: RepositoryMap,
    d: GirDirectory,
)
    requires
        before.entries@.is_prefix_of(iter.entries@),
        iter.entries@.is_prefix_of(now.entries@),
        forall|k: int|
            before.entries@.len() <= k < iter.entries@.len() ==> dir_names(d).contains(
                #[trigger] iter.entries@[k].0@,
            ),
        forall|k: int|
            iter.entries@.len() <= k < now.entries@.len() ==> dir_names(d).contains(
                #[trigger] now.entries@[k].0@,
            ),
        forall|k: int|
            before.entries@.len() <= k < iter.entries@.len() ==> (files_lookup(
                d.files@,
                #[trigger] iter.entries@[k].0@,
            ) matches Some(c) && repository_text_rep(c, iter.entries@[k].1)),
        forall|k: int|
            iter.entries@.len() <= k < now.entries@.len() ==> (files_lookup(
                d.files@,
                #[trigger] now.entries@[k].0@,
            ) matches Some(c) && repository_text_rep(c, now.entries@[k].1)),
    ensures
        before.entries@.is_prefix_of(now.entries@),
        forall|k: int|
            before.entries@.len() <= k < now.entries@.len() ==> dir_names(d).contains(
                #[trigger] now.entries@[k].0@,
            ),
        forall|k: int|
            before.entries@.len() <= k < now.entries@.len() ==> (files_lookup(
                d.files@,
                #[trigger] now.entries@[k].0@,
            ) matches Some(c) && repository_text_rep(c, now.entries@[k].1)),
{
    assert(forall|k2: int|
        0 <= k2 < iter.entries@.len() ==> iter.entries@[k2] == #[trigger] now.entries@[k2]);
    assert(before.entries@.is_prefix_of(now.entries@)) by {
        assert(before.entries@ =~= now.entries@.take(before.entries@.len() as int));
    }
}

impl Repository {
    /// Resolves one file and everything it transitively includes into the
    /// given cache, reading candidates from the in-memory directory. Every
    /// entry the call adds is the parse of the directory file under its key;
    /// afterwards the cache is again resolved in dependency order, and on
    /// success it holds the root file. A ranked directory — one whose include
    /// graph an explicit rank witnesses to be acyclic, every candidate reading
    /// back as a repository — is owed success. A cyclic include chain is
    /// reported as the cycle error instead of recursing without bound, and a
    /// root that is already cached leaves the cache exactly as it was after
    /// one redundant parse.
    pub fn from_path_follow_namespaces_and_cache(
        cache: &mut RepositoryMap,
        package_file: &str,
        girs_dirs: &GirDirectory,
    ) -> (r: Result<(), ParserError>)
        requires
            map_wf(*old(cache)),
            map_ordered(*old(cache)),
        ensures
            map_wf(*final(cache)),
            map_ordered(*final(cache)),
            map_closed(*final(cache)),
            old(cache).entries@.is_prefix_of(final(cache).entries@),
            forall|i: int|
                old(cache).entries@.len() <= i < final(cache).entries@.len() ==> dir_names(
                    *girs_dirs,
                ).contains(#[trigger] final(cache).entries@[i].0@),
            forall|i: int|
                old(cache).entries@.len() <= i < final(cache).entries@.len() ==> (files_lookup(
                    girs_dirs.files@,
                    #[trigger] final(cache).entries@[i].0@,
                ) matches Some(c) && repository_text_rep(c, final(cache).entries@[i].1)),
            r is Ok ==> map_has(*final(cache), package_file@),
            files_lookup(girs_dirs.files@, package_file@) is None ==> (r matches Err(e)
                && e is IO),
            map_has(*old(cache), package_file@) && (files_lookup(girs_dirs.files@, package_file@)
                matches Some(c) && repository_text_ok(c)) ==> r is Ok && *final(cache) == *old(
                cache,
            ),
            (exists|rank: spec_fn(Seq<char>) -> nat| dir_ranked(*girs_dirs, rank)) && dir_names(
                *girs_dirs,
            ).contains(package_file@) ==> r is Ok,
            dir_reads(*girs_dirs) && dir_names(*girs_dirs).contains(package_file@) ==> (r is Ok
                || (r matches Err(e) && e is Cycle)),
            dir_parses(*girs_dirs) ==> (r is Ok || (r matches Err(e) && (e is IO || e is Cycle))),
            dir_within(*girs_dirs) && dir_names(*girs_dirs).contains(package_file@) ==> (r is Ok
                || (r matches Err(e) && (e is Xml || e is Cycle))),
    {
        let ghost rank = choose|rank: spec_fn(Seq<char>) -> nat| dir_ranked(*girs_dirs, rank);
        let mut in_progress: Vec<String> = Vec::new();
        proof {
            assert(strs_view(in_progress@) =~= Seq::<Seq<char>>::empty());
            assert(rank_below(strs_view(in_progress@), package_file@, rank));
        }
        let r = match resolve_into(cache, &mut in_progress, package_file, girs_dirs, Ghost(rank)) {
            Ok(()) => Ok(()),
            Err(e) => Err(e),
        };
        proof {
            lemma_map_ordered_closed(*cache);
        }
        r
    }

    /// Resolves one file and everything it transitively includes from the
    /// in-memory directory, producing the whole dependency-closed mapping or
    /// the first error.
    pub fn from_path_follow_namespaces(package_file: &str, girs_dirs: &GirDirectory) -> (r: Result<
        RepositoryMap,
        ParserError,
    >)
        ensures
            r matches Ok(m) ==> {
                &&& map_wf(m)
                &&& map_ordered(m)
                &&& map_closed(m)
                &&& map_has(m, package_file@)
                &&& forall|i: int|
                    0 <= i < m.entries@.len() ==> dir_names(*girs_dirs).contains(
                        #[trigger] m.entries@[i].0@,
                    )
                &&& forall|i: int|
                    0 <= i < m.entries@.len() ==> (files_lookup(
                        girs_dirs.files@,
                        #[trigger] m.entries@[i].0@,
                    ) matches Some(c) && repository_text_rep(c, m.entries@[i].1))
            },
            files_lookup(girs_dirs.files@, package_file@) is None ==> (r matches Err(e)
                && e is IO),
            (exists|rank: spec_fn(Seq<char>) -> nat| dir_ranked(*girs_dirs, rank)) && dir_names(
                *girs_dirs,
            ).contains(package_file@) ==> r is Ok,
            dir_reads(*girs_dirs) && dir_names(*girs_dirs).contains(package_file@) ==> (r is Ok
                || (r matches Err(e) && e is Cycle)),
            dir_parses(*girs_dirs) ==> (r is Ok || (r matches Err(e) && (e is IO || e is Cycle))),
            dir_within(*girs_dirs) && dir_names(*girs_dirs).contains(package_file@) ==> (r is Ok
                || (r matches Err(e) && (e is Xml || e is Cycle))),
    {
        let mut output = RepositoryMap::new();
        match Repository::from_path_follow_namespaces_and_cache(
            &mut output,
            package_file,
            girs_dirs,
        ) {
            Ok(()) => Ok(output),
            Err(e) => Err(e),
        }
    }
}

} // verus!

