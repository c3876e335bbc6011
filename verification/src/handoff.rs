//! One-shot transfer of a startup file path from the process arguments into
//! the running user interface.
//!
//! At launch the first command-line token after the program name that does
//! not begin with the flag prefix is captured as the startup file path. The
//! captured value is held in a [`StartupFile`] container and drained exactly
//! once: the first take returns it, every later take returns nothing.

use vstd::prelude::*;
use vstd::string::StrSliceExecFns;

verus! {

/// A command-line token counts as a flag when it begins with the flag
/// prefix character `-`.
pub open spec fn starts_with_flag(s: Seq<char>) -> bool {
    s.len() > 0 && s[0] == '-'
}

/// The first token of `args` that is not a flag, scanning left to right;
/// `None` when every token is a flag.
pub open spec fn first_non_flag(args: Seq<Seq<char>>) -> Option<Seq<char>>
    decreases args.len(),
{
    if args.len() == 0 {
        None
    } else if !starts_with_flag(args[0]) {
        Some(args[0])
    } else {
        first_non_flag(args.skip(1))
    }
}

/// The startup path captured from a full argument sequence: the first
/// token after the program name that is not a flag. An empty sequence
/// carries no program name and no path.
pub open spec fn captured(args: Seq<Seq<char>>) -> Option<Seq<char>> {
    if args.len() == 0 {
        None
    } else {
        first_non_flag(args.skip(1))
    }
}

/// Whether the token begins with the flag prefix.
fn is_flag_token(s: &str) -> (b: bool)
    ensures
        b == starts_with_flag(s@),
{
    s.unicode_len() > 0 && s.get_char(0) == '-'
}

/// Scans the process arguments in order, skipping the program name, and
/// returns the first argument that does not begin with the flag prefix;
/// returns `None` if there is none.
pub fn capture(args: &Vec<String>) -> (r: Option<String>)
    ensures
        r.deep_view() == captured(args.deep_view()),
{
    let ghost all: Seq<Seq<char>> = args.deep_view();
    if args.len() == 0 {
        return None;
    }
    let mut i: usize = 1;
    while i < args.len()
        invariant
            1 <= i <= args@.len(),
            all == args.deep_view(),
            first_non_flag(all.skip(1)) == first_non_flag(all.skip(i as int)),
        decreases args@.len() - i,
    {
        if !is_flag_token(args[i].as_str()) {
            proof {
                assert(all.skip(i as int)[0] == all[i as int]);
            }
            return Some(args[i].clone());
        }
        proof {
            assert(all.skip(i as int).skip(1) =~= all.skip(i as int + 1));
        }
        i += 1;
    }
    None
}

/// What the first non-flag token is, spelled out: `first_non_flag` returns
/// `None` exactly when every token is a flag, and otherwise returns the
/// token at the earliest non-flag position, every position before it
/// holding a flag.
pub proof fn lemma_first_non_flag_characterization(args: Seq<Seq<char>>)
    ensures
        (first_non_flag(args) is None) <==> (forall|i: int|
            0 <= i < args.len() ==> starts_with_flag(args[i])),
        first_non_flag(args) matches Some(v) ==> exists|k: int|
            {
                &&& 0 <= k < args.len()
                &&& !starts_with_flag(args[k])
                &&& v == args[k]
                &&& forall|j: int| 0 <= j < k ==> starts_with_flag(args[j])
            },
    decreases args.len(),
{
    if args.len() > 0 && starts_with_flag(args[0]) {
        let tail = args.skip(1);
        lemma_first_non_flag_characterization(tail);
        assert(first_non_flag(args) == first_non_flag(tail));
        if first_non_flag(args) is None {
            assert forall|i: int| 0 <= i < args.len() implies starts_with_flag(args[i]) by {
                if i > 0 {
                    assert(starts_with_flag(tail[i - 1]));
                    assert(tail[i - 1] == args[i]);
                }
            }
        }
        if forall|i: int| 0 <= i < args.len() ==> starts_with_flag(args[i]) {
            assert forall|i: int| 0 <= i < tail.len() implies starts_with_flag(tail[i]) by {
                assert(starts_with_flag(args[i + 1]));
                assert(tail[i] == args[i + 1]);
            }
            assert(first_non_flag(tail) is None);
        }
        match first_non_flag(args) {
            Some(v) => {
                let k0 = choose|k: int|
                    {
                        &&& 0 <= k < tail.len()
                        &&& !starts_with_flag(tail[k])
                        &&& v == tail[k]
                        &&& forall|j: int| 0 <= j < k ==> starts_with_flag(tail[j])
                    };
                assert(tail[k0] == args[k0 + 1]);
                assert forall|j: int| 0 <= j < k0 + 1 implies starts_with_flag(args[j]) by {
                    if j > 0 {
                        assert(starts_with_flag(tail[j - 1]));
                        assert(tail[j - 1] == args[j]);
                    }
                }
                assert({
                    &&& 0 <= k0 + 1 < args.len()
                    &&& !starts_with_flag(args[k0 + 1])
                    &&& v == args[k0 + 1]
                    &&& forall|j: int| 0 <= j < k0 + 1 ==> starts_with_flag(args[j])
                });
            },
            None => {},
        }
    } else if args.len() > 0 {
        assert(!starts_with_flag(args[0]));
        assert({
            &&& 0 <= 0 < args.len()
            &&& !starts_with_flag(args[0])
            &&& first_non_flag(args) == Some(args[0])
            &&& forall|j: int| 0 <= j < 0 ==> starts_with_flag(args[j])
        });
    }
}

/// The result of draining a handoff container that held `v`: the held value
/// is returned and the container is left empty.
pub open spec fn drained(v: Option<Seq<char>>) -> (Option<Seq<char>>, Option<Seq<char>>) {
    (v, None)
}

/// Draining twice in succession: whatever the first drain returned, the
/// second drain of the state it leaves behind returns nothing.
pub proof fn lemma_drain_at_most_once(v: Option<Seq<char>>)
    ensures
        drained(drained(v).1).0 is None,
{
}

/// Holds the startup file path, set at most once at construction and
/// consumed at most once thereafter.
pub struct StartupFile {
    value: Option<String>,
}

impl View for StartupFile {
    type V = Option<Seq<char>>;

    closed spec fn view(&self) -> Option<Seq<char>> {
        self.value.deep_view()
    }
}

impl StartupFile {
    /// Stores the captured startup path, or nothing when none was given.
    pub fn new(initial: Option<String>) -> (s: Self)
        ensures
            s@ == initial.deep_view(),
    {
        StartupFile { value: initial }
    }

    /// Reads and clears the stored value: the first call returns what was
    /// stored, every later call returns `None`.
    pub fn take(&mut self) -> (r: Option<String>)
        ensures
            (r.deep_view(), final (self)@) == drained(old(self)@),
    {
        self.value.take()
    }

    /// Retrieves and consumes the initial file path on behalf of the user
    /// interface; idempotent after the first call, which alone can return a
    /// path.
    pub fn get_initial_file(&mut self) -> (r: Option<String>)
        ensures
            (r.deep_view(), final (self)@) == drained(old(self)@),
    {
        self.take()
    }
}

} // verus!
