use vstd::prelude::*;

verus! {

/// A directory path held as plain values: its anchor (the root such as `/`,
/// a drive prefix, or empty for a relative path) and its named components,
/// outermost first.
pub struct DirPath {
    pub anchor: String,
    pub parts: Vec<String>,
}

impl DirPath {
    /// The components as a sequence of character sequences.
    pub open spec fn parts_view(&self) -> Seq<Seq<char>> {
        self.parts@.map_values(|s: String| s@)
    }

    /// Builds a path from its anchor and its components.
    pub fn new(anchor: String, parts: Vec<String>) -> (r: DirPath)
        ensures
            r.anchor@ == anchor@,
            r.parts_view() == parts@.map_values(|s: String| s@),
    {
        DirPath { anchor, parts }
    }

    /// Number of components below the anchor.
    pub fn depth(&self) -> (r: usize)
        ensures
            r == self.parts@.len(),
    {
        self.parts.len()
    }

    /// The directory one level up, or `None` when the path is only its anchor.
    pub fn parent(&self) -> (r: Option<DirPath>)
        ensures
            r.is_none() <==> self.parts@.len() == 0,
            r matches Some(p) ==> p.anchor@ == self.anchor@ && p.parts_view()
                == self.parts_view().drop_last(),
    {
        let n = self.parts.len();
        if n == 0 {
            return None;
        }
        let mut parts: Vec<String> = Vec::new();
        let mut i: usize = 0;
        while i < n - 1
            invariant
                n == self.parts@.len(),
                n > 0,
                i <= n - 1,
                parts@.len() == i,
                forall|k: int| 0 <= k < i ==> #[trigger] parts@[k]@ == self.parts@[k]@,
            decreases n - 1 - i,
        {
            parts.push(self.parts[i].clone());
            i = i + 1;
        }
        let r = DirPath { anchor: self.anchor.clone(), parts };
        assert(r.parts_view() =~= self.parts_view().drop_last());
        Some(r)
    }

    /// The path with `name` appended as one more component.
    pub fn join(&self, name: &str) -> (r: DirPath)
        ensures
            r.anchor@ == self.anchor@,
            r.parts_view() == self.parts_view().push(name@),
    {
        let n = self.parts.len();
        let mut parts: Vec<String> = Vec::new();
        let mut i: usize = 0;
        while i < n
            invariant
                n == self.parts@.len(),
                i <= n,
                parts@.len() == i,
                forall|k: int| 0 <= k < i ==> #[trigger] parts@[k]@ == self.parts@[k]@,
            decreases n - i,
        {
            parts.push(self.parts[i].clone());
            i = i + 1;
        }
        parts.push(name.to_owned());
        let r = DirPath { anchor: self.anchor.clone(), parts };
        assert(r.parts_view() =~= self.parts_view().push(name@));
        r
    }
}

} // verus!
