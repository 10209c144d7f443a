use vstd::prelude::*;

use crate::text::copy_string;

verus! {

/// One element reached by the tree walk: its ancestry (names from the record
/// root down to the element itself), its depth, its attributes in document
/// order and its own trimmed text.
pub struct NodeVisit {
    pub path: Vec<String>,
    pub depth: usize,
    pub attributes: Vec<(String, String)>,
    pub text: Option<String>,
}

/// Mathematical view of a [`NodeVisit`].
pub struct VisitModel {
    pub path: Seq<Seq<char>>,
    pub depth: int,
    pub attributes: Seq<(Seq<char>, Seq<char>)>,
    pub text: Option<Seq<char>>,
}

pub open spec fn strings_view(v: Seq<String>) -> Seq<Seq<char>> {
    v.map_values(|s: String| s@)
}

pub open spec fn pairs_view(v: Seq<(String, String)>) -> Seq<(Seq<char>, Seq<char>)> {
    v.map_values(|p: (String, String)| (p.0@, p.1@))
}

pub open spec fn opt_view(o: Option<String>) -> Option<Seq<char>> {
    match o {
        Some(s) => Some(s@),
        None => None,
    }
}

impl View for NodeVisit {
    type V = VisitModel;

    open spec fn view(&self) -> VisitModel {
        VisitModel {
            path: strings_view(self.path@),
            depth: self.depth as int,
            attributes: pairs_view(self.attributes@),
            text: opt_view(self.text),
        }
    }
}

/// Value of the first attribute named `name`, if any.
pub open spec fn attribute_of(attrs: Seq<(Seq<char>, Seq<char>)>, name: Seq<char>) -> Option<
    Seq<char>,
>
    decreases attrs.len(),
{
    if attrs.len() == 0 {
        None
    } else if attrs[0].0 == name {
        Some(attrs[0].1)
    } else {
        attribute_of(attrs.drop_first(), name)
    }
}

/// Name of the visited element: the last entry of its path.
pub open spec fn visit_name(v: VisitModel) -> Seq<char> {
    if v.path.len() == 0 {
        Seq::empty()
    } else {
        v.path.last()
    }
}

impl NodeVisit {
    /// The value of the attribute `name`, if the element carries it.
    pub fn attribute(&self, name: &str) -> (r: Option<String>)
        ensures
            opt_view(r) == attribute_of(self@.attributes, name@),
    {
        let mut i: usize = 0;
        assert(self@.attributes.subrange(0, self@.attributes.len() as int) =~= self@.attributes);
        while i < self.attributes.len()
            invariant
                i <= self.attributes@.len(),
                attribute_of(self@.attributes, name@) == attribute_of(
                    self@.attributes.subrange(i as int, self@.attributes.len() as int),
                    name@,
                ),
            decreases self.attributes.len() - i,
        {
            let ghost rest = self@.attributes.subrange(i as int, self@.attributes.len() as int);
            assert(rest.drop_first() =~= self@.attributes.subrange(
                i + 1,
                self@.attributes.len() as int,
            ));
            if crate::text::eq_str(self.attributes[i].0.as_str(), name) {
                return Some(copy_string(&self.attributes[i].1));
            }
            i = i + 1;
        }
        None
    }

    /// Whether the visited element is named `name`.
    pub fn has_name(&self, name: &str) -> (r: bool)
        ensures
            r == (visit_name(self@) == name@),
    {
        if self.path.len() == 0 {
            proof {
                reveal_strlit("");
                assert(""@ =~= Seq::<char>::empty());
            }
            return crate::text::eq_str("", name);
        }
        crate::text::eq_str(self.path[self.path.len() - 1].as_str(), name)
    }

    /// Whether the path of the visited element is exactly `expected`.
    pub fn path_is(&self, expected: &[&str]) -> (r: bool)
        ensures
            r == (self@.path =~= expected@.map_values(|s: &str| s@)),
    {
        if self.path.len() != expected.len() {
            return false;
        }
        let mut i: usize = 0;
        while i < self.path.len()
            invariant
                self.path@.len() == expected@.len(),
                i <= self.path@.len(),
                forall|k: int| 0 <= k < i ==> self.path@[k]@ == expected@[k]@,
            decreases self.path.len() - i,
        {
            if !crate::text::eq_str(self.path[i].as_str(), expected[i]) {
                assert(self@.path[i as int] != expected@.map_values(|s: &str| s@)[i as int]);
                return false;
            }
            i = i + 1;
        }
        true
    }
}

/// `parts` separated by `sep`.
pub open spec fn join(parts: Seq<Seq<char>>, sep: Seq<char>) -> Seq<char>
    decreases parts.len(),
{
    if parts.len() == 0 {
        Seq::empty()
    } else if parts.len() == 1 {
        parts[0]
    } else {
        join(parts.drop_last(), sep) + sep + parts.last()
    }
}

/// `n` tab characters.
pub open spec fn tabs(n: nat) -> Seq<char> {
    Seq::new(n, |i: int| '\t')
}

/// The debug line of a visit: indentation by depth, the dotted path, the
/// text and the attributes as `name=value` pairs.
pub open spec fn debug_line(v: VisitModel) -> Seq<char> {
    let indent = if v.depth >= 1 { (v.depth - 1) as nat } else { 0 };
    tabs(indent) + join(v.path, "."@) + " - "@ + match v.text {
        Some(t) => t,
        None => "No text"@,
    } + " - "@ + if v.attributes.len() == 0 {
        "No attributes"@
    } else {
        join(v.attributes.map_values(|a: (Seq<char>, Seq<char>)| a.0 + "="@ + a.1), " "@)
    } + "\n"@
}

fn join_strings(parts: &Vec<String>, sep: &str) -> (r: String)
    ensures
        r@ == join(strings_view(parts@), sep@),
{
    let mut s = String::new();
    let mut i: usize = 0;
    while i < parts.len()
        invariant
            i <= parts@.len(),
            s@ == join(strings_view(parts@).subrange(0, i as int), sep@),
        decreases parts.len() - i,
    {
        let ghost pre = strings_view(parts@).subrange(0, i as int);
        let ghost next = strings_view(parts@).subrange(0, i + 1);
        assert(next.drop_last() =~= pre);
        if i > 0 {
            s.append(sep);
        } else {
            assert(s@ =~= Seq::<char>::empty());
        }
        s.append(parts[i].as_str());
        i = i + 1;
    }
    assert(strings_view(parts@).subrange(0, parts@.len() as int) =~= strings_view(parts@));
    s
}

/// Writes every visit as one line: its path, its text and its attributes.
pub struct BasicNodeWriter {}

impl BasicNodeWriter {
    pub fn new() -> Self {
        BasicNodeWriter {  }
    }

    /// The debug line of one visit.
    pub fn handle(&self, v: &NodeVisit) -> (r: String)
        ensures
            r@ == debug_line(v@),
    {
        let mut s = String::new();
        let indent: usize = if v.depth >= 1 {
            v.depth - 1
        } else {
            0
        };
        let mut k: usize = 0;
        assert(s@ =~= tabs(0));
        while k < indent
            invariant
                k <= indent,
                s@ == tabs(k as nat),
            decreases indent - k,
        {
            s.append("\t");
            proof {
                reveal_strlit("\t");
            }
            k = k + 1;
            assert(s@ =~= tabs(k as nat));
        }
        assert(s@ =~= tabs(if v@.depth >= 1 { (v@.depth - 1) as nat } else { 0 }));
        let p = join_strings(&v.path, ".");
        s.append(p.as_str());
        s.append(" - ");
        match &v.text {
            Some(t) => s.append(t.as_str()),
            None => s.append("No text"),
        }
        s.append(" - ");
        if v.attributes.len() == 0 {
            s.append("No attributes");
        } else {
            let mut parts: Vec<String> = Vec::new();
            let mut i: usize = 0;
            while i < v.attributes.len()
                invariant
                    i <= v.attributes@.len(),
                    strings_view(parts@) == v@.attributes.subrange(0, i as int).map_values(
                        |a: (Seq<char>, Seq<char>)| a.0 + "="@ + a.1,
                    ),
                decreases v.attributes.len() - i,
            {
                let ghost prev = strings_view(parts@);
                let mut one = String::from_str(v.attributes[i].0.as_str());
                one.append("=");
                one.append(v.attributes[i].1.as_str());
                assert(one@ == v@.attributes[i as int].0 + "="@ + v@.attributes[i as int].1);
                parts.push(one);
                assert(strings_view(parts@) =~= prev.push(one@));
                i = i + 1;
                assert(strings_view(parts@) =~= v@.attributes.subrange(0, i as int).map_values(
                    |a: (Seq<char>, Seq<char>)| a.0 + "="@ + a.1,
                ));
            }
            assert(v@.attributes.subrange(0, i as int) =~= v@.attributes);
            let j = join_strings(&parts, " ");
            s.append(j.as_str());
        }
        s.append("\n");
        s
    }
}

} // verus!
