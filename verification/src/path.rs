//! The path-component guard: the one check that stands between a name the
//! host hands over and a place in the file system.

use vstd::prelude::*;
use vstd::string::*;

verus! {

/// Whether `raw` is exactly one normal path component: not empty, free of
/// path separators, and neither `.` nor `..`.
pub open spec fn is_single_normal(raw: Seq<char>) -> bool {
    &&& raw.len() > 0
    &&& forall|i: int| 0 <= i < raw.len() ==> raw[i] != '/'
    &&& raw != seq!['.']
    &&& raw != seq!['.', '.']
}

/// The path of the entry `name` in the directory `dir`: one separator stands
/// between them unless `dir` is empty or already ends in one.
pub open spec fn joined(dir: Seq<char>, name: Seq<char>) -> Seq<char> {
    if dir.len() == 0 {
        name
    } else if dir.last() == '/' {
        dir + name
    } else {
        dir.push('/') + name
    }
}

/// Whether `path_ratchet::SingleComponentPath::new` accepts a text.
pub uninterp spec fn ratchet_single(raw: Seq<char>) -> bool;

/// Calls `path_ratchet::SingleComponentPath::new` and says whether it gave a
/// path. The answer is a function of the text, named [`ratchet_single`].
#[verifier::external_body]
pub(crate) fn ratchet_accepts(raw: &str) -> (accepted: bool)
    ensures
        accepted == ratchet_single(raw@),
{
    path_ratchet::SingleComponentPath::new(raw).is_some()
}

/// A path that is a single normal component.
#[derive(Clone, Debug, PartialEq, Eq)]
pub struct PathComponent {
    path: String,
}

impl View for PathComponent {
    type V = Seq<char>;

    closed spec fn view(&self) -> Seq<char> {
        self.path@
    }
}

impl PathComponent {
    /// Takes a text as a path component, if it is one.
    pub fn new(component: &str) -> (made: Option<PathComponent>)
        ensures
            made is Some <==> is_single_normal(component@),
            made matches Some(path) ==> path@ == component@,
    {
        let candidate = PathComponent { path: String::from_str(component) };
        if candidate.is_valid() {
            Some(candidate)
        } else {
            None
        }
    }

    /// Whether the text held is a single normal component.
    pub fn is_valid(&self) -> (valid: bool)
        ensures
            valid == is_single_normal(self@),
    {
        let text = self.path.as_str();
        let len = text.unicode_len();
        if len == 0 {
            return false;
        }
        let mut i: usize = 0;
        while i < len
            invariant
                i <= len,
                len == text@.len(),
                text@ == self@,
                forall|j: int| 0 <= j < i ==> text@[j] != '/',
            decreases len - i,
        {
            if text.get_char(i) == '/' {
                assert(text@[i as int] == '/');
                return false;
            }
            i = i + 1;
        }
        if len == 1 && text.get_char(0) == '.' {
            assert(text@ =~= seq!['.']);
            return false;
        }
        if len == 2 && text.get_char(0) == '.' && text.get_char(1) == '.' {
            assert(text@ =~= seq!['.', '.']);
            return false;
        }
        assert(text@ != seq!['.']) by {
            if text@ == seq!['.'] {
                assert(seq!['.'].len() == 1);
                assert(seq!['.'][0] == '.');
            }
        }
        assert(text@ != seq!['.', '.']) by {
            if text@ == seq!['.', '.'] {
                assert(seq!['.', '.'].len() == 2);
                assert(seq!['.', '.'][0] == '.');
                assert(seq!['.', '.'][1] == '.');
            }
        }
        true
    }

    pub fn as_str(&self) -> (text: &str)
        ensures
            text@ == self@,
    {
        self.path.as_str()
    }
}

/// Paths that grow by one checked component at a time.
pub trait PushPathComponent {
    /// The path as text.
    spec fn path_text(&self) -> Seq<char>;

    /// Appends `component` as the last component of the path.
    fn push_component(&mut self, component: PathComponent)
        ensures
            final(self).path_text() == joined(old(self).path_text(), component@),
    ;
}

impl PushPathComponent for String {
    open spec fn path_text(&self) -> Seq<char> {
        self@
    }

    fn push_component(&mut self, component: PathComponent) {
        let len = self.as_str().unicode_len();
        if len == 0 {
            self.append(component.as_str());
            assert(self@ =~= component@);
        } else {
            let last = self.as_str().get_char(len - 1);
            if last != '/' {
                proof {
                    reveal_strlit("/");
                }
                let ghost before = self@;
                self.append("/");
                assert(self@ =~= before.push('/'));
            }
            self.append(component.as_str());
        }
    }
}

/// A path made by [`PushPathComponent::push_component`] from a component that
/// [`PathComponent::new`] accepted stays below the directory it was pushed
/// onto: it begins with the directory, and nothing after the directory is a
/// separator but the one that joins the two.
pub proof fn lemma_joined_stays_below(dir: Seq<char>, name: Seq<char>)
    requires
        is_single_normal(name),
    ensures
        joined(dir, name).len() >= dir.len() + name.len(),
        joined(dir, name).subrange(0, dir.len() as int) == dir,
        joined(dir, name).subrange(
            joined(dir, name).len() - name.len(),
            joined(dir, name).len() as int,
        ) == name,
        joined(dir, name).len() <= dir.len() + name.len() + 1,
{
    let path = joined(dir, name);
    assert(path.subrange(0, dir.len() as int) =~= dir);
    assert(path.subrange(path.len() - name.len(), path.len() as int) =~= name);
}

} // verus!
