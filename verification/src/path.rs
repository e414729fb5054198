//! Module paths in the store: a path is either a single string or an ordered
//! sequence of components that renders as the components joined by slashes.

use vstd::prelude::*;

verus! {

/// A module path: a single string, or a slash-joined ordered sequence of
/// components.
#[derive(Debug, Clone, PartialEq, Eq, PartialOrd, Ord)]
pub enum Path {
    Text(String),
    Parts(Vec<String>),
}

/// The slash-joined rendering of a sequence of components.
pub open spec fn joined(parts: Seq<Seq<char>>) -> Seq<char>
    decreases parts.len(),
{
    if parts.len() == 0 {
        Seq::empty()
    } else if parts.len() == 1 {
        parts[0]
    } else {
        joined(parts.drop_last()) + "/"@ + parts.last()
    }
}

impl Path {
    /// The single string this path renders as.
    pub open spec fn text(self) -> Seq<char> {
        match self {
            Path::Text(s) => s@,
            Path::Parts(v) => joined(v@.map_values(|s: String| s@)),
        }
    }

    /// Renders the path: a single string stands for itself, components are
    /// joined by slashes.
    pub fn to_string(&self) -> (r: String)
        ensures
            r@ == self.text(),
    {
        match self {
            Path::Text(s) => s.clone(),
            Path::Parts(v) => join_components(v),
        }
    }
}

fn join_components(v: &Vec<String>) -> (r: String)
    ensures
        r@ == joined(v@.map_values(|s: String| s@)),
{
    let ghost parts = v@.map_values(|s: String| s@);
    let mut out = String::new();
    let mut i: usize = 0;
    proof {
        assert(out@ =~= joined(parts.take(0)));
    }
    while i < v.len()
        invariant
            i <= v@.len(),
            parts == v@.map_values(|s: String| s@),
            parts.len() == v@.len(),
            out@ == joined(parts.take(i as int)),
        decreases v@.len() - i,
    {
        if i > 0 {
            out.append("/");
        }
        out.append(v[i].as_str());
        proof {
            let p = parts.take(i as int + 1);
            assert(p.drop_last() =~= parts.take(i as int));
            assert(p.last() == parts[i as int]);
            if i == 0 {
                assert(out@ =~= joined(p));
            } else {
                assert(joined(p) == joined(parts.take(i as int)) + "/"@ + parts[i as int]);
            }
        }
        i = i + 1;
    }
    proof {
        assert(parts.take(parts.len() as int) =~= parts);
    }
    out
}

impl From<String> for Path {
    fn from(s: String) -> Path {
        Path::Text(s)
    }
}

impl vstd::std_specs::convert::FromSpecImpl<String> for Path {
    open spec fn obeys_from_spec() -> bool {
        true
    }

    open spec fn from_spec(s: String) -> Path {
        Path::Text(s)
    }
}

impl From<crate::hash::Hash> for Path {
    fn from(h: crate::hash::Hash) -> Path {
        Path::Text(h.0)
    }
}

impl vstd::std_specs::convert::FromSpecImpl<crate::hash::Hash> for Path {
    open spec fn obeys_from_spec() -> bool {
        true
    }

    open spec fn from_spec(h: crate::hash::Hash) -> Path {
        Path::Text(h.0)
    }
}

impl From<Vec<String>> for Path {
    fn from(v: Vec<String>) -> Path {
        Path::Parts(v)
    }
}

impl vstd::std_specs::convert::FromSpecImpl<Vec<String>> for Path {
    open spec fn obeys_from_spec() -> bool {
        true
    }

    open spec fn from_spec(v: Vec<String>) -> Path {
        Path::Parts(v)
    }
}

} // verus!
