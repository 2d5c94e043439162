//! Text as the host reads it: a run of characters that ends at the first NUL,
//! so no NUL may stand inside it.

use vstd::prelude::*;
use vstd::std_specs::iter::IteratorSpec;
use vstd::string::*;

verus! {

/// Names the piece of author-supplied text that a [`ConfigError`] speaks of.
#[derive(Clone, Copy, Debug, PartialEq, Eq, Structural)]
pub enum TextField {
    Id,
    Name,
    Version,
    Summary,
    Description,
    Author,
    Homepage,
    OptionText,
    OptionKey,
    OptionDefault,
}

/// A fatal mistake in a plugin's static data: `field` holds a NUL character,
/// the first of them at character index `position`.
#[derive(Clone, Copy, Debug, PartialEq, Eq, Structural)]
pub struct ConfigError {
    pub field: TextField,
    pub position: usize,
}

/// Whether a NUL character occurs in `s`.
pub open spec fn has_nul(s: Seq<char>) -> bool {
    exists|i: int| 0 <= i < s.len() && s[i] == '\0'
}

/// Whether `i` is the index of the first NUL character of `s`.
pub open spec fn first_nul_at(s: Seq<char>, i: int) -> bool {
    &&& 0 <= i < s.len()
    &&& s[i] == '\0'
    &&& forall|j: int| 0 <= j < i ==> s[j] != '\0'
}

/// The index of the first NUL character of `s`, if it has one.
pub open spec fn first_nul(s: Seq<char>) -> Option<int> {
    if has_nul(s) {
        Some(choose|i: int| first_nul_at(s, i))
    } else {
        None
    }
}

/// `first_nul` names the first NUL: if `i` is the first NUL of `s`, then `first_nul(s)` is `i`.
pub proof fn lemma_first_nul_unique(s: Seq<char>, i: int)
    requires
        first_nul_at(s, i),
    ensures
        has_nul(s),
        first_nul(s) == Some(i),
{
    let k = choose|k: int| first_nul_at(s, k);
    assert(first_nul_at(s, k));
    if k < i {
        assert(s[k] != '\0');
    }
    if i < k {
        assert(s[i] != '\0');
    }
}

/// Looks for the first NUL character of `s`.
pub fn find_nul(s: &str) -> (r: Option<usize>)
    ensures
        r is Some <==> has_nul(s@),
        r is Some ==> first_nul(s@) == Some(r->0 as int),
{
    broadcast use {axiom_spec_iter, next_postcondition};

    let n: usize = s.unicode_len();
    let mut rest = s.chars();
    let mut i: usize = 0;
    while i < n
        invariant
            n == s@.len(),
            i <= n,
            rest.obeys_prophetic_iter_laws(),
            rest.remaining() == s@.skip(i as int),
            forall|j: int| 0 <= j < i ==> s@[j] != '\0',
        decreases n - i,
    {
        match rest.next() {
            Some(c) => {
                assert(c == s@[i as int]);
                assert(rest.remaining() =~= s@.skip(i + 1));
                if c == '\0' {
                    proof {
                        lemma_first_nul_unique(s@, i as int);
                    }
                    return Some(i);
                }
            },
            None => {
                return None;
            },
        }
        i += 1;
    }
    None
}

/// Text that the host can read: it holds no NUL character.
#[derive(Debug)]
pub struct HostText {
    text: String,
}

impl View for HostText {
    type V = Seq<char>;

    closed spec fn view(&self) -> Seq<char> {
        self.text@
    }
}

impl HostText {
    #[verifier::type_invariant]
    spec fn nul_free(self) -> bool {
        !has_nul(self.text@)
    }

    /// Takes `text` over as host text, or says where its first NUL stands.
    pub fn new(text: String) -> (r: Result<HostText, usize>)
        ensures
            match r {
                Ok(t) => !has_nul(text@) && t@ == text@,
                Err(at) => first_nul(text@) == Some(at as int),
            },
    {
        match find_nul(text.as_str()) {
            Some(at) => Err(at),
            None => Ok(HostText { text }),
        }
    }

    /// The characters, for the host to copy.
    pub fn as_str(&self) -> (r: &str)
        ensures
            r@ == self@,
            !has_nul(r@),
    {
        proof {
            use_type_invariant(self);
        }
        self.text.as_str()
    }

    /// Gives the text back as an ordinary string.
    pub fn into_string(self) -> (r: String)
        ensures
            r@ == self@,
            !has_nul(r@),
    {
        proof {
            use_type_invariant(&self);
        }
        self.text
    }
}

} // verus!
