//! The command line of a run as one line of shell text.
use vstd::prelude::*;

verus! {

/// The words of a command quoted for a POSIX shell and separated by single
/// spaces, as the `shlex` crate writes them.
pub uninterp spec fn shell_joined(words: Seq<Seq<char>>) -> Seq<char>;

/// Whether a word can be quoted at all: no shell can take a nul character.
pub open spec fn quotable(word: Seq<char>) -> bool {
    !word.contains('\0')
}

/// `shlex::try_join`: the words quoted where necessary and joined by single
/// spaces. Its only error is a nul character in one of the words, and that
/// error is what `None` stands for. The text itself is only named.
#[verifier::external_body]
pub(crate) fn shell_join(words: &Vec<String>) -> (line: Option<String>)
    ensures
        line is Some <==> forall|i: int| 0 <= i < words.len() ==> quotable(#[trigger] words[i]@),
        line matches Some(text) ==> text@ == shell_joined(words.deep_view()),
{
    shlex::try_join(words.iter().map(|w| w.as_str())).ok()
}

} // verus!
