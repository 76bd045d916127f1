use vstd::prelude::*;
use crate::text::{has_substring, str_contains};

verus! {

/// The processes in scope: a set of ids that only grows, and at most one
/// name pattern that admits a process when its start event is seen.
pub struct TargetFilter {
    ids: Vec<u32>,
    name_pattern: Option<String>,
}

/// Abstract state of a [`TargetFilter`].
pub struct TargetsView {
    pub ids: Set<u32>,
    pub name_pattern: Option<Seq<char>>,
}

/// The filter after a process-start event for `pid` whose image is `image`.
pub open spec fn process_start_spec(t: TargetsView, pid: u32, image: Seq<char>) -> TargetsView {
    match t.name_pattern {
        Some(p) => if has_substring(image, p) {
            TargetsView { ids: t.ids.insert(pid), name_pattern: t.name_pattern }
        } else {
            t
        },
        None => t,
    }
}

impl View for TargetFilter {
    type V = TargetsView;

    closed spec fn view(&self) -> TargetsView {
        TargetsView {
            ids: Set::new(|p: u32| self.ids@.contains(p)),
            name_pattern: match self.name_pattern {
                Some(s) => Some(s@),
                None => None,
            },
        }
    }
}

impl TargetFilter {
    /// A filter that admits exactly the process `pid`.
    pub fn by_id(pid: u32) -> (r: Self)
        ensures
            r@.ids == set![pid],
            r@.name_pattern.is_none(),
    {
        let r = TargetFilter { ids: vec![pid], name_pattern: None };
        assert(r@.ids =~= set![pid]);
        r
    }

    /// A filter that admits no process until one whose image name contains
    /// `pattern` starts.
    pub fn by_name(pattern: String) -> (r: Self)
        ensures
            r@.ids == Set::<u32>::empty(),
            r@.name_pattern == Some(pattern@),
    {
        let r = TargetFilter { ids: Vec::new(), name_pattern: Some(pattern) };
        assert(r@.ids =~= Set::<u32>::empty());
        r
    }

    /// Whether process `pid` is in scope.
    pub fn admits(&self, pid: u32) -> (r: bool)
        ensures
            r == self@.ids.contains(pid),
    {
        let mut i: usize = 0;
        while i < self.ids.len()
            invariant
                i <= self.ids@.len(),
                forall|j: int| 0 <= j < i ==> self.ids@[j] != pid,
            decreases self.ids@.len() - i,
        {
            if self.ids[i] == pid {
                return true;
            }
            i += 1;
        }
        false
    }

    /// Admits `pid` for good when a name pattern is set and `image` contains it.
    pub fn on_process_start(&mut self, pid: u32, image: &str)
        ensures
            final(self)@ == process_start_spec(old(self)@, pid, image@),
    {
        let ghost before = self@;
        let matched = match &self.name_pattern {
            Some(p) => str_contains(image, p.as_str()),
            None => false,
        };
        if matched && !self.admits(pid) {
            let ghost old_ids = self.ids@;
            self.ids.push(pid);
            assert forall|p: u32| self.ids@.contains(p) == (old_ids.contains(p) || p == pid) by {
                if old_ids.contains(p) {
                    let j = choose|j: int| 0 <= j < old_ids.len() && old_ids[j] == p;
                    assert(self.ids@[j] == p);
                }
                if p == pid {
                    assert(self.ids@[old_ids.len() as int] == pid);
                }
            }
            assert(self@.ids =~= before.ids.insert(pid));
        } else if matched {
            assert(self@.ids =~= before.ids.insert(pid));
        }
    }
}

} // verus!
