use vstd::prelude::*;

verus! {

broadcast use
    vstd::std_specs::vec::axiom_vec_index_decreases,
    vstd::std_specs::vec::axiom_vec_decreases_to_view,
    vstd::seq::axiom_seq_index_decreases,
;

/// One XML element: tag name, attributes in document order, the
/// concatenated character data, and child elements in document order.
pub struct XmlElement {
    pub name: String,
    pub attrs: Vec<(String, String)>,
    pub text: String,
    pub children: Vec<XmlElement>,
}

/// Mathematical image of an `XmlElement`.
pub ghost struct XmlView {
    pub name: Seq<char>,
    pub attrs: Seq<(Seq<char>, Seq<char>)>,
    pub text: Seq<char>,
    pub children: Seq<XmlView>,
}

pub open spec fn empty_view() -> XmlView {
    XmlView { name: Seq::empty(), attrs: Seq::empty(), text: Seq::empty(), children: Seq::empty() }
}

/// The views of a run of elements, in order.
pub open spec fn views_of(s: Seq<XmlElement>) -> Seq<XmlView>
    decreases s,
{
    Seq::new(
        s.len(),
        |i: int|
            if 0 <= i < s.len() {
                elem_view(s[i])
            } else {
                empty_view()
            },
    )
}

pub open spec fn elem_view(e: XmlElement) -> XmlView
    decreases e,
{
    XmlView {
        name: e.name@,
        attrs: e.attrs.deep_view(),
        text: e.text@,
        children: views_of(e.children@),
    }
}

/// Relies on `str`'s `PartialEq`: two string slices compare equal exactly
/// when their character sequences are equal.
#[verifier::external_body]
pub fn str_eq(a: &str, b: &str) -> (r: bool)
    ensures
        r == (a@ == b@),
{
    a == b
}

/// Relies on `String::push_str`: appends the slice's characters to the end.
#[verifier::external_body]
pub fn push_chars(s: &mut String, t: &str)
    ensures
        final(s)@ == old(s)@ + t@,
{
    s.push_str(t)
}

/// A fresh copy of an attribute list, character for character.
pub fn clone_attrs(v: &Vec<(String, String)>) -> (r: Vec<(String, String)>)
    ensures
        r.deep_view() == v.deep_view(),
{
    let mut r: Vec<(String, String)> = Vec::new();
    let mut i: usize = 0;
    while i < v.len()
        invariant
            0 <= i <= v@.len(),
            r@.len() == i,
            forall|j: int| 0 <= j < i ==> r@[j] == v@[j],
        decreases v@.len() - i,
    {
        r.push((v[i].0.clone(), v[i].1.clone()));
        i = i + 1;
    }
    proof {
        assert forall|j: int| 0 <= j < v@.len() implies r.deep_view()[j] == v.deep_view()[j] by {
            assert(r@[j] == v@[j]);
        }
        assert(r.deep_view() =~= v.deep_view());
    }
    r
}

/// Index of the first child with the given tag at or after `from`.
pub open spec fn first_child_from(e: XmlView, name: Seq<char>, from: int) -> Option<int>
    decreases e.children.len() - from,
{
    if from < 0 || from >= e.children.len() {
        None
    } else if e.children[from].name == name {
        Some(from)
    } else {
        first_child_from(e, name, from + 1)
    }
}

/// The first child element carrying the given tag, in document order.
pub open spec fn spec_child(e: XmlView, name: Seq<char>) -> Option<XmlView> {
    match first_child_from(e, name, 0) {
        Some(i) => Some(e.children[i]),
        None => None,
    }
}

/// Value of the first attribute with the given key at or after `from`.
pub open spec fn first_attr_from(
    attrs: Seq<(Seq<char>, Seq<char>)>,
    key: Seq<char>,
    from: int,
) -> Option<Seq<char>>
    decreases attrs.len() - from,
{
    if from < 0 || from >= attrs.len() {
        None
    } else if attrs[from].0 == key {
        Some(attrs[from].1)
    } else {
        first_attr_from(attrs, key, from + 1)
    }
}

/// The value of the first attribute with the given key, in document order.
pub open spec fn spec_attr(e: XmlView, key: Seq<char>) -> Option<Seq<char>> {
    first_attr_from(e.attrs, key, 0)
}

impl XmlElement {
    /// First child element carrying the given tag name, in document order.
    pub fn find_child(&self, name: &str) -> (r: Option<&XmlElement>)
        ensures
            match r {
                Some(c) => {
                    &&& first_child_from(elem_view(*self), name@, 0) matches Some(i)
                    &&& 0 <= i < self.children@.len()
                    &&& elem_view(*c) == elem_view(self.children@[i])
                    &&& spec_child(elem_view(*self), name@) == Some(elem_view(*c))
                },
                None => spec_child(elem_view(*self), name@) is None,
            },
    {
        let mut i: usize = 0;
        while i < self.children.len()
            invariant
                0 <= i <= self.children@.len(),
                first_child_from(elem_view(*self), name@, 0) == first_child_from(
                    elem_view(*self),
                    name@,
                    i as int,
                ),
            decreases self.children@.len() - i,
        {
            if str_eq(self.children[i].name.as_str(), name) {
                assert(elem_view(self.children@[i as int]).name == name@);
                return Some(&self.children[i]);
            }
            proof {
                assert(elem_view(*self).children[i as int] == elem_view(self.children@[i as int]));
                assert(first_child_from(elem_view(*self), name@, i as int) == first_child_from(
                    elem_view(*self),
                    name@,
                    i + 1,
                ));
            }
            i = i + 1;
        }
        None
    }

    /// Value of the first attribute with the given key, in document order.
    pub fn find_attr(&self, key: &str) -> (r: Option<&String>)
        ensures
            r.deep_view() == spec_attr(elem_view(*self), key@),
    {
        let mut i: usize = 0;
        while i < self.attrs.len()
            invariant
                0 <= i <= self.attrs@.len(),
                first_attr_from(elem_view(*self).attrs, key@, 0) == first_attr_from(
                    elem_view(*self).attrs,
                    key@,
                    i as int,
                ),
            decreases self.attrs@.len() - i,
        {
            if str_eq(self.attrs[i].0.as_str(), key) {
                assert(elem_view(*self).attrs[i as int].0 == key@);
                return Some(&self.attrs[i].1);
            }
            proof {
                assert(elem_view(*self).attrs[i as int] == (
                    self.attrs@[i as int].0@,
                    self.attrs@[i as int].1@,
                ));
                assert(first_attr_from(elem_view(*self).attrs, key@, i as int) == first_attr_from(
                    elem_view(*self).attrs,
                    key@,
                    i + 1,
                ));
            }
            i = i + 1;
        }
        None
    }
}

} // verus!
