use vstd::prelude::*;

verus! {

/// One attribute of an element: the (possibly prefixed) attribute name, taken
/// as an opaque literal, and its unescaped value.
pub struct XmlAttr {
    pub name: String,
    pub value: String,
}

/// One node of a document: a child element or a run of character data.
pub enum XmlNode {
    Element(XmlElement),
    Text(String),
}

/// One element with its attributes and its children in document order.
pub struct XmlElement {
    pub tag: String,
    pub attrs: Vec<XmlAttr>,
    pub children: Vec<XmlNode>,
}

/// The value of the first attribute named `name`, if any.
pub open spec fn attr_lookup(attrs: Seq<XmlAttr>, name: Seq<char>) -> Option<Seq<char>>
    decreases attrs.len(),
{
    if attrs.len() == 0 {
        None
    } else if attrs[0].name@ == name {
        Some(attrs[0].value@)
    } else {
        attr_lookup(attrs.skip(1), name)
    }
}

pub open spec fn attr_of(e: XmlElement, name: Seq<char>) -> Option<Seq<char>> {
    attr_lookup(e.attrs@, name)
}

/// Every child element whose tag is `tag`, in document order.
pub open spec fn tagged_children(children: Seq<XmlNode>, tag: Seq<char>) -> Seq<XmlElement>
    decreases children.len(),
{
    if children.len() == 0 {
        Seq::empty()
    } else {
        let rest = tagged_children(children.drop_last(), tag);
        match children.last() {
            XmlNode::Element(e) => if e.tag@ == tag {
                rest.push(e)
            } else {
                rest
            },
            XmlNode::Text(_) => rest,
        }
    }
}

/// Every child element whose tag is one of `tags`, in document order.
pub open spec fn tagged_any(children: Seq<XmlNode>, tags: Seq<Seq<char>>) -> Seq<XmlElement>
    decreases children.len(),
{
    if children.len() == 0 {
        Seq::empty()
    } else {
        let rest = tagged_any(children.drop_last(), tags);
        match children.last() {
            XmlNode::Element(e) => if tags.contains(e.tag@) {
                rest.push(e)
            } else {
                rest
            },
            XmlNode::Text(_) => rest,
        }
    }
}

/// The first child element whose tag is `tag`, if any.
pub open spec fn first_tagged(children: Seq<XmlNode>, tag: Seq<char>) -> Option<XmlElement>
    decreases children.len(),
{
    if children.len() == 0 {
        None
    } else {
        match children[0] {
            XmlNode::Element(e) => if e.tag@ == tag {
                Some(e)
            } else {
                first_tagged(children.skip(1), tag)
            },
            XmlNode::Text(_) => first_tagged(children.skip(1), tag),
        }
    }
}

/// The first child element whose tag is one of `tags`, if any: the matching
/// procedure for an untagged, tag-dispatched schema position.
pub open spec fn first_tagged_any(children: Seq<XmlNode>, tags: Seq<Seq<char>>) -> Option<
    XmlElement,
>
    decreases children.len(),
{
    if children.len() == 0 {
        None
    } else {
        match children[0] {
            XmlNode::Element(e) => if tags.contains(e.tag@) {
                Some(e)
            } else {
                first_tagged_any(children.skip(1), tags)
            },
            XmlNode::Text(_) => first_tagged_any(children.skip(1), tags),
        }
    }
}

/// The concatenated direct character data of an element.
pub open spec fn text_content(children: Seq<XmlNode>) -> Seq<char>
    decreases children.len(),
{
    if children.len() == 0 {
        Seq::empty()
    } else {
        text_content(children.drop_last()) + match children.last() {
            XmlNode::Text(s) => s@,
            XmlNode::Element(_) => Seq::empty(),
        }
    }
}

/// The views of a list of literal names.
pub open spec fn names_view(names: Seq<&str>) -> Seq<Seq<char>> {
    names.map_values(|n: &str| n@)
}

/// Whether every attribute name of `attrs` is one of `allowed`.
pub open spec fn attrs_within(attrs: Seq<XmlAttr>, allowed: Seq<Seq<char>>) -> bool {
    forall|i: int| 0 <= i < attrs.len() ==> allowed.contains(#[trigger] attrs[i].name@)
}

/// Whether every child element's tag of `children` is one of `allowed`;
/// character data is never held against an element.
pub open spec fn tags_within(children: Seq<XmlNode>, allowed: Seq<Seq<char>>) -> bool {
    forall|i: int| 0 <= i < children.len() ==> match #[trigger] children[i] {
        XmlNode::Element(c) => allowed.contains(c.tag@),
        XmlNode::Text(_) => true,
    }
}

pub open spec fn derefs(s: Seq<&XmlElement>) -> Seq<XmlElement> {
    s.map_values(|x: &XmlElement| *x)
}

pub open spec fn opt_view<T: View>(o: Option<T>) -> Option<T::V> {
    match o {
        Some(t) => Some(t@),
        None => None,
    }
}

pub open spec fn opt_view_nat(o: Option<u8>) -> Option<nat> {
    match o {
        Some(v) => Some(v as nat),
        None => None,
    }
}

pub open spec fn opt_view_nat_usize(o: Option<usize>) -> Option<nat> {
    match o {
        Some(v) => Some(v as nat),
        None => None,
    }
}

pub open spec fn opt_deref<T>(o: Option<&T>) -> Option<T> {
    match o {
        Some(t) => Some(*t),
        None => None,
    }
}

/// Character-for-character equality of two string slices.
pub fn str_eq(a: &str, b: &str) -> (r: bool)
    ensures
        r == (a@ == b@),
{
    let alen = a.unicode_len();
    let blen = b.unicode_len();
    if alen != blen {
        return false;
    }
    let mut i: usize = 0;
    while i < alen
        invariant
            alen == a@.len(),
            alen == b@.len(),
            i <= alen,
            forall|j: int| 0 <= j < i ==> a@[j] == b@[j],
        decreases alen - i,
    {
        if a.get_char(i) != b.get_char(i) {
            return false;
        }
        i += 1;
    }
    proof {
        assert(a@ =~= b@);
    }
    true
}

/// Whether `x` is one of the literal names `names`.
pub fn name_in(x: &str, names: &[&str]) -> (r: bool)
    ensures
        r == names_view(names@).contains(x@),
{
    let n = names.len();
    let mut i: usize = 0;
    while i < n
        invariant
            n == names@.len(),
            i <= n,
            forall|j: int| 0 <= j < i ==> names_view(names@)[j] != x@,
        decreases n - i,
    {
        if str_eq(x, names[i]) {
            assert(names_view(names@)[i as int] == x@);
            return true;
        }
        i += 1;
    }
    assert(forall|j: int| 0 <= j < names_view(names@).len() ==> names_view(names@)[j] != x@);
    false
}

/// The value of the first attribute named `name`, if any.
pub fn find_attr<'a>(e: &'a XmlElement, name: &str) -> (r: Option<&'a String>)
    ensures
        opt_view(r) == attr_of(*e, name@),
{
    let n = e.attrs.len();
    let mut i: usize = 0;
    proof {
        assert(e.attrs@.skip(0) =~= e.attrs@);
    }
    while i < n
        invariant
            n == e.attrs@.len(),
            i <= n,
            attr_lookup(e.attrs@, name@) == attr_lookup(e.attrs@.skip(i as int), name@),
        decreases n - i,
    {
        proof {
            assert(e.attrs@.skip(i as int)[0] == e.attrs@[i as int]);
            assert(e.attrs@.skip(i as int).skip(1) =~= e.attrs@.skip(i as int + 1));
        }
        if str_eq(e.attrs[i].name.as_str(), name) {
            return Some(&e.attrs[i].value);
        }
        i += 1;
    }
    proof {
        assert(e.attrs@.skip(n as int) =~= Seq::<XmlAttr>::empty());
    }
    None
}

/// The value of the first attribute named `name`, copied out.
pub fn attr_string(e: &XmlElement, name: &str) -> (r: Option<String>)
    ensures
        opt_view(r) == attr_of(*e, name@),
{
    match find_attr(e, name) {
        Some(v) => Some(v.clone()),
        None => None,
    }
}

/// Every child element tagged `tag`, in document order.
pub fn children_tagged<'a>(e: &'a XmlElement, tag: &str) -> (r: Vec<&'a XmlElement>)
    ensures
        derefs(r@) == tagged_children(e.children@, tag@),
{
    let n = e.children.len();
    let mut out: Vec<&'a XmlElement> = Vec::new();
    let mut i: usize = 0;
    while i < n
        invariant
            n == e.children@.len(),
            i <= n,
            derefs(out@) == tagged_children(e.children@.take(i as int), tag@),
        decreases n - i,
    {
        proof {
            assert(e.children@.take(i as int + 1).drop_last() =~= e.children@.take(i as int));
            assert(e.children@.take(i as int + 1).last() == e.children@[i as int]);
        }
        match &e.children[i] {
            XmlNode::Element(c) => {
                if str_eq(c.tag.as_str(), tag) {
                    out.push(c);
                    proof {
                        assert(derefs(out@) =~= tagged_children(
                            e.children@.take(i as int + 1),
                            tag@,
                        ));
                    }
                } else {
                    proof {
                        assert(derefs(out@) =~= tagged_children(
                            e.children@.take(i as int + 1),
                            tag@,
                        ));
                    }
                }
            },
            XmlNode::Text(_) => {
                proof {
                    assert(derefs(out@) =~= tagged_children(e.children@.take(i as int + 1), tag@));
                }
            },
        }
        i += 1;
    }
    proof {
        assert(e.children@.take(n as int) =~= e.children@);
    }
    out
}

/// Every child element whose tag is one of `tags`, in document order: the
/// matching procedure for an ordered heterogeneous collection.
pub fn children_tagged_any<'a>(e: &'a XmlElement, tags: &[&str]) -> (r: Vec<&'a XmlElement>)
    ensures
        derefs(r@) == tagged_any(e.children@, names_view(tags@)),
{
    let n = e.children.len();
    let mut out: Vec<&'a XmlElement> = Vec::new();
    let mut i: usize = 0;
    while i < n
        invariant
            n == e.children@.len(),
            i <= n,
            derefs(out@) == tagged_any(e.children@.take(i as int), names_view(tags@)),
        decreases n - i,
    {
        proof {
            assert(e.children@.take(i as int + 1).drop_last() =~= e.children@.take(i as int));
            assert(e.children@.take(i as int + 1).last() == e.children@[i as int]);
        }
        match &e.children[i] {
            XmlNode::Element(c) => {
                if name_in(c.tag.as_str(), tags) {
                    out.push(c);
                }
                proof {
                    assert(derefs(out@) =~= tagged_any(
                        e.children@.take(i as int + 1),
                        names_view(tags@),
                    ));
                }
            },
            XmlNode::Text(_) => {
                proof {
                    assert(derefs(out@) =~= tagged_any(
                        e.children@.take(i as int + 1),
                        names_view(tags@),
                    ));
                }
            },
        }
        i += 1;
    }
    proof {
        assert(e.children@.take(n as int) =~= e.children@);
    }
    out
}

/// The first child element tagged `tag`, if any.
pub fn first_child<'a>(e: &'a XmlElement, tag: &str) -> (r: Option<&'a XmlElement>)
    ensures
        opt_deref(r) == first_tagged(e.children@, tag@),
{
    let n = e.children.len();
    let mut i: usize = 0;
    proof {
        assert(e.children@.skip(0) =~= e.children@);
    }
    while i < n
        invariant
            n == e.children@.len(),
            i <= n,
            first_tagged(e.children@, tag@) == first_tagged(e.children@.skip(i as int), tag@),
        decreases n - i,
    {
        proof {
            assert(e.children@.skip(i as int)[0] == e.children@[i as int]);
            assert(e.children@.skip(i as int).skip(1) =~= e.children@.skip(i as int + 1));
        }
        match &e.children[i] {
            XmlNode::Element(c) => {
                if str_eq(c.tag.as_str(), tag) {
                    return Some(c);
                }
            },
            XmlNode::Text(_) => {},
        }
        i += 1;
    }
    proof {
        assert(e.children@.skip(n as int) =~= Seq::<XmlNode>::empty());
    }
    None
}

/// The first child element whose tag is one of `tags`, if any.
pub fn first_child_any<'a>(e: &'a XmlElement, tags: &[&str]) -> (r: Option<&'a XmlElement>)
    ensures
        opt_deref(r) == first_tagged_any(e.children@, names_view(tags@)),
{
    let n = e.children.len();
    let mut i: usize = 0;
    proof {
        assert(e.children@.skip(0) =~= e.children@);
    }
    while i < n
        invariant
            n == e.children@.len(),
            i <= n,
            first_tagged_any(e.children@, names_view(tags@)) == first_tagged_any(
                e.children@.skip(i as int),
                names_view(tags@),
            ),
        decreases n - i,
    {
        proof {
            assert(e.children@.skip(i as int)[0] == e.children@[i as int]);
            assert(e.children@.skip(i as int).skip(1) =~= e.children@.skip(i as int + 1));
        }
        match &e.children[i] {
            XmlNode::Element(c) => {
                if name_in(c.tag.as_str(), tags) {
                    return Some(c);
                }
            },
            XmlNode::Text(_) => {},
        }
        i += 1;
    }
    proof {
        assert(e.children@.skip(n as int) =~= Seq::<XmlNode>::empty());
    }
    None
}

/// The concatenated direct character data of `e`.
pub fn text_of(e: &XmlElement) -> (r: String)
    ensures
        r@ == text_content(e.children@),
{
    let n = e.children.len();
    let mut out = String::new();
    let mut i: usize = 0;
    while i < n
        invariant
            n == e.children@.len(),
            i <= n,
            out@ == text_content(e.children@.take(i as int)),
        decreases n - i,
    {
        proof {
            assert(e.children@.take(i as int + 1).drop_last() =~= e.children@.take(i as int));
            assert(e.children@.take(i as int + 1).last() == e.children@[i as int]);
        }
        match &e.children[i] {
            XmlNode::Text(s) => {
                out.append(s.as_str());
            },
            XmlNode::Element(_) => {},
        }
        i += 1;
    }
    proof {
        assert(e.children@.take(n as int) =~= e.children@);
    }
    out
}

/// Whether every attribute of `e` is named by `allowed`.
pub fn check_attrs_within(e: &XmlElement, allowed: &[&str]) -> (r: bool)
    ensures
        r == attrs_within(e.attrs@, names_view(allowed@)),
{
    let n = e.attrs.len();
    let mut i: usize = 0;
    while i < n
        invariant
            n == e.attrs@.len(),
            i <= n,
            forall|j: int| 0 <= j < i ==> names_view(allowed@).contains(#[trigger] e.attrs@[j].name@),
        decreases n - i,
    {
        if !name_in(e.attrs[i].name.as_str(), allowed) {
            return false;
        }
        i += 1;
    }
    true
}

/// Whether every child element of `e` has a tag named by `allowed`.
pub fn check_tags_within(e: &XmlElement, allowed: &[&str]) -> (r: bool)
    ensures
        r == tags_within(e.children@, names_view(allowed@)),
{
    let n = e.children.len();
    let mut i: usize = 0;
    while i < n
        invariant
            n == e.children@.len(),
            i <= n,
            forall|j: int| 0 <= j < i ==> match #[trigger] e.children@[j] {
                XmlNode::Element(c) => names_view(allowed@).contains(c.tag@),
                XmlNode::Text(_) => true,
            },
        decreases n - i,
    {
        match &e.children[i] {
            XmlNode::Element(c) => {
                if !name_in(c.tag.as_str(), allowed) {
                    return false;
                }
            },
            XmlNode::Text(_) => {},
        }
        i += 1;
    }
    true
}

} // verus!

verus! {

/// The optional string seen as an optional slice.
pub fn opt_as_str<'a>(o: &'a Option<String>) -> (r: Option<&'a str>)
    ensures
        opt_view(r) == opt_view(*o),
{
    match o {
        Some(s) => Some(s.as_str()),
        None => None,
    }
}

} // verus!

verus! {

/// A found first-tagged child is one of the children.
pub proof fn lemma_first_tagged_any_contained(children: Seq<XmlNode>, tags: Seq<Seq<char>>)
    requires
        first_tagged_any(children, tags) is Some,
    ensures
        exists|i: int|
            0 <= i < children.len() && children[i] == XmlNode::Element(
                first_tagged_any(children, tags)->Some_0,
            ),
    decreases children.len(),
{
    match children[0] {
        XmlNode::Element(e) => {
            if tags.contains(e.tag@) {
                assert(children[0] == XmlNode::Element(first_tagged_any(children, tags)->Some_0));
            } else {
                lemma_first_tagged_any_contained(children.skip(1), tags);
                let i = choose|i: int|
                    0 <= i < children.skip(1).len() && children.skip(1)[i] == XmlNode::Element(
                        first_tagged_any(children.skip(1), tags)->Some_0,
                    );
                assert(children[i + 1] == XmlNode::Element(
                    first_tagged_any(children, tags)->Some_0,
                ));
            }
        },
        XmlNode::Text(_) => {
            lemma_first_tagged_any_contained(children.skip(1), tags);
            let i = choose|i: int|
                0 <= i < children.skip(1).len() && children.skip(1)[i] == XmlNode::Element(
                    first_tagged_any(children.skip(1), tags)->Some_0,
                );
            assert(children[i + 1] == XmlNode::Element(first_tagged_any(children, tags)->Some_0));
        },
    }
}

/// An element found among the children stands below the element that holds
/// them, for recursion over the tree.
pub proof fn lemma_child_decreases(e: XmlElement, c: XmlElement)
    requires
        exists|i: int|
            0 <= i < e.children@.len() && e.children@[i] == XmlNode::Element(c),
    ensures
        decreases_to!(e => c),
{
    broadcast use vstd::std_specs::vec::axiom_vec_decreases_to_view;
    broadcast use vstd::seq::axiom_seq_index_decreases;

    let i = choose|i: int|
        0 <= i < e.children@.len() && e.children@[i] == XmlNode::Element(c);
    assert(decreases_to!(e => e.children));
    assert(decreases_to!(e.children => e.children@));
    assert(decreases_to!(e.children@ => e.children@[i]));
    assert(e.children@[i] == XmlNode::Element(c));
    assert(decreases_to!(e.children@[i] => e.children@[i]->Element_0));
    assert(e.children@[i]->Element_0 == c);
}

} // verus!

verus! {

/// Every element of a tag-filtered child list is one of the children.
pub proof fn lemma_tagged_any_elem_contained(children: Seq<XmlNode>, tags: Seq<Seq<char>>, i: int)
    requires
        0 <= i < tagged_any(children, tags).len(),
    ensures
        exists|j: int|
            0 <= j < children.len() && children[j] == XmlNode::Element(
                tagged_any(children, tags)[i],
            ),
    decreases children.len(),
{
    if children.len() == 0 {
    } else {
        let rest = tagged_any(children.drop_last(), tags);
        if i < rest.len() {
            lemma_tagged_any_elem_contained(children.drop_last(), tags, i);
            let j = choose|j: int|
                0 <= j < children.drop_last().len() && children.drop_last()[j]
                    == XmlNode::Element(rest[i]);
            assert(children[j] == XmlNode::Element(tagged_any(children, tags)[i]));
        } else {
            match children.last() {
                XmlNode::Element(c) => {
                    assert(children[children.len() - 1] == XmlNode::Element(
                        tagged_any(children, tags)[i],
                    ));
                },
                XmlNode::Text(_) => {},
            }
        }
    }
}

} // verus!
