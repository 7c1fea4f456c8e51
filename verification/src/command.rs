//! The grammar of local commands: a line of words separated by whitespace,
//! the first of which is the verb.

use vstd::prelude::*;

verus! {

/// The characters that separate words: those with the Unicode property
/// `White_Space`.
pub open spec fn is_whitespace(c: char) -> bool {
    let n = c as u32;
    ||| 0x09 <= n <= 0x0D
    ||| n == 0x20
    ||| n == 0x85
    ||| n == 0xA0
    ||| n == 0x1680
    ||| 0x2000 <= n <= 0x200A
    ||| n == 0x2028
    ||| n == 0x2029
    ||| n == 0x202F
    ||| n == 0x205F
    ||| n == 0x3000
}

/// The length of the longest prefix of `s` that holds no whitespace.
pub open spec fn word_len(s: Seq<char>) -> nat
    decreases s.len(),
{
    if s.len() > 0 && !is_whitespace(s[0]) {
        1 + word_len(s.drop_first())
    } else {
        0
    }
}

/// A word is never longer than the text it starts.
pub proof fn lemma_word_len_bound(s: Seq<char>)
    ensures
        word_len(s) <= s.len(),
    decreases s.len(),
{
    if s.len() > 0 && !is_whitespace(s[0]) {
        lemma_word_len_bound(s.drop_first());
    }
}

/// The words of `s`: its maximal runs of characters that are not
/// whitespace, in order. Whitespace before, between and after the words is
/// dropped, so no word is empty.
pub open spec fn tokens(s: Seq<char>) -> Seq<Seq<char>>
    decreases s.len(),
{
    if s.len() == 0 {
        Seq::empty()
    } else if is_whitespace(s[0]) {
        tokens(s.drop_first())
    } else {
        proof {
            lemma_word_len_bound(s);
        }
        seq![s.take(word_len(s) as int)] + tokens(s.skip(word_len(s) as int))
    }
}

/// A word: at least one character, none of them whitespace.
pub open spec fn is_word(w: Seq<char>) -> bool {
    &&& w.len() > 0
    &&& forall|k: int| 0 <= k < w.len() ==> !is_whitespace(#[trigger] w[k])
}

/// The first word of a text holds no whitespace.
pub proof fn lemma_word_has_no_whitespace(s: Seq<char>)
    ensures
        forall|k: int| 0 <= k < word_len(s) ==> !is_whitespace(#[trigger] s[k]),
    decreases s.len(),
{
    if s.len() > 0 && !is_whitespace(s[0]) {
        let rest = s.drop_first();
        lemma_word_has_no_whitespace(rest);
        lemma_word_len_bound(s);
        assert forall|k: int| 0 <= k < word_len(s) implies !is_whitespace(#[trigger] s[k]) by {
            if k > 0 {
                assert(s[k] == rest[k - 1]);
            }
        }
    }
}

/// Whatever the text, each of its tokens is a word: none is empty and none
/// holds whitespace.
pub proof fn lemma_tokens_are_words(s: Seq<char>)
    ensures
        forall|i: int| 0 <= i < tokens(s).len() ==> is_word(#[trigger] tokens(s)[i]),
    decreases s.len(),
{
    if s.len() == 0 {
    } else if is_whitespace(s[0]) {
        lemma_tokens_are_words(s.drop_first());
        assert(tokens(s) == tokens(s.drop_first()));
    } else {
        let n = word_len(s) as int;
        lemma_word_len_bound(s);
        lemma_word_has_no_whitespace(s);
        lemma_tokens_are_words(s.skip(n));
        let first = s.take(n);
        assert(is_word(first)) by {
            assert forall|k: int| 0 <= k < first.len() implies !is_whitespace(
                #[trigger] first[k],
            ) by {
                assert(first[k] == s[k]);
            }
        }
        assert(tokens(s) == seq![first] + tokens(s.skip(n)));
        assert forall|i: int| 0 <= i < tokens(s).len() implies is_word(#[trigger] tokens(s)[i]) by {
            if i > 0 {
                assert(tokens(s)[i] == tokens(s.skip(n))[i - 1]);
            } else {
                assert(tokens(s)[i] == first);
            }
        }
    }
}

/// A word alone on a line is the line's one token.
pub proof fn lemma_single_word(w: Seq<char>)
    requires
        is_word(w),
    ensures
        tokens(w) == seq![w],
{
    lemma_word_len_is(w, w.len() as int);
    assert(w.take(w.len() as int) =~= w);
    assert(tokens(w.skip(w.len() as int)) =~= Seq::<Seq<char>>::empty());
    assert(seq![w] + Seq::<Seq<char>>::empty() =~= seq![w]);
}

/// The texts of a sequence of strings, in the same order.
pub open spec fn string_views(strings: Seq<String>) -> Seq<Seq<char>> {
    strings.map_values(|s: String| s@)
}

/// A prefix without whitespace that ends at whitespace, or at the end of the
/// text, is the first word.
proof fn lemma_word_len_is(s: Seq<char>, len: int)
    requires
        0 <= len <= s.len(),
        forall|k: int| 0 <= k < len ==> !is_whitespace(#[trigger] s[k]),
        len == s.len() || is_whitespace(s[len]),
    ensures
        word_len(s) == len,
    decreases len,
{
    if len > 0 {
        let rest = s.drop_first();
        assert forall|k: int| 0 <= k < len - 1 implies !is_whitespace(#[trigger] rest[k]) by {
            assert(rest[k] == s[k + 1]);
        }
        lemma_word_len_is(rest, len - 1);
    }
}

/// Whether `c` separates words.
pub fn char_is_whitespace(c: char) -> (b: bool)
    ensures
        b == is_whitespace(c),
{
    let n: u32 = c as u32;
    (0x09 <= n && n <= 0x0D) || n == 0x20 || n == 0x85 || n == 0xA0 || n == 0x1680 || (0x2000 <= n
        && n <= 0x200A) || n == 0x2028 || n == 0x2029 || n == 0x202F || n == 0x205F || n == 0x3000
}

/// The characters of a string, one by one.
fn chars_of(text: &str) -> (chars: Vec<char>)
    ensures
        chars@ == text@,
{
    let mut chars: Vec<char> = Vec::new();
    for c in it: text.chars()
        invariant
            it.seq() == text@,
            chars@ == it.seq().take(it.index() as int),
    {
        chars.push(c);
    }
    chars
}

/// Splits a line into its words.
pub fn split_whitespace(text: &str) -> (words: Vec<String>)
    ensures
        string_views(words@) == tokens(text@),
{
    let chars = chars_of(text);
    let n = chars.len();
    let ghost s = text@;
    let mut words: Vec<String> = Vec::new();
    let mut i: usize = 0;
    assert(s.skip(0) =~= s);
    assert(string_views(words@) =~= Seq::empty());
    while i < n
        invariant
            s == text@,
            chars@ == s,
            n == s.len(),
            i <= n,
            tokens(s) == string_views(words@) + tokens(s.skip(i as int)),
        decreases n - i,
    {
        let ghost tail = s.skip(i as int);
        if char_is_whitespace(chars[i]) {
            assert(tail.drop_first() =~= s.skip(i + 1));
            i = i + 1;
        } else {
            let start = i;
            i = i + 1;
            while i < n && !char_is_whitespace(chars[i])
                invariant
                    chars@ == s,
                    n == s.len(),
                    start < i <= n,
                    forall|k: int| start <= k < i ==> !is_whitespace(#[trigger] s[k]),
                decreases n - i,
            {
                i = i + 1;
            }
            let word = text.substring_char(start, i).to_owned();
            proof {
                let len = i - start;
                assert forall|k: int| 0 <= k < len implies !is_whitespace(#[trigger] tail[k]) by {
                    assert(tail[k] == s[start + k]);
                }
                lemma_word_len_is(tail, len);
                assert(tail.take(len) =~= s.subrange(start as int, i as int));
                assert(tail.skip(len) =~= s.skip(i as int));
                assert(string_views(words@.push(word)) =~= string_views(words@).push(word@));
                assert(string_views(words@).push(word@) + tokens(s.skip(i as int)) =~= string_views(
                    words@,
                ) + (seq![word@] + tokens(s.skip(i as int))));
            }
            words.push(word);
        }
    }
    assert(tokens(s.skip(n as int)) =~= Seq::empty());
    words
}

/// A local command: what follows the sigil, taken apart.
#[derive(Debug, Clone, PartialEq, Eq)]
pub struct Command {
    /// The first word, case kept as entered.
    pub verb: String,
    /// The words after the verb, in order.
    pub args: Vec<String>,
}

/// The mathematical value of a [`Command`].
pub struct CommandView {
    pub verb: Seq<char>,
    pub args: Seq<Seq<char>>,
}

impl View for Command {
    type V = CommandView;

    open spec fn view(&self) -> CommandView {
        CommandView { verb: self.verb@, args: string_views(self.args@) }
    }
}

/// The command that a line spells, the sigil already taken off: its first word
/// is the verb, the others are the arguments. A line without a word spells none.
pub open spec fn command_of(line: Seq<char>) -> Option<CommandView> {
    let words = tokens(line);
    if words.len() == 0 {
        None
    } else {
        Some(CommandView { verb: words[0], args: words.skip(1) })
    }
}

/// A line that starts with a word, followed by nothing or by whitespace and
/// more, spells the command with that word as its verb and the words of the
/// rest as its arguments.
pub proof fn lemma_first_word_is_verb(word: Seq<char>, rest: Seq<char>)
    requires
        is_word(word),
        rest.len() == 0 || is_whitespace(rest[0]),
    ensures
        command_of(word + rest) == Some(CommandView { verb: word, args: tokens(rest) }),
{
    let line = word + rest;
    let n = word.len() as int;
    assert forall|k: int| 0 <= k < n implies !is_whitespace(#[trigger] line[k]) by {
        assert(line[k] == word[k]);
    }
    if rest.len() > 0 {
        assert(line[n] == rest[0]);
    }
    lemma_word_len_is(line, n);
    assert(line.take(n) =~= word);
    assert(line.skip(n) =~= rest);
    assert(line[0] == word[0]);
    assert(tokens(line) == seq![word] + tokens(rest));
    assert(tokens(line).skip(1) =~= tokens(rest));
}

/// Parses what follows the sigil.
pub fn parse_command(line: &str) -> (command: Option<Command>)
    ensures
        match command {
            Some(c) => command_of(line@) == Some(c@),
            None => command_of(line@) is None,
        },
{
    let mut words = split_whitespace(line);
    if words.len() == 0 {
        None
    } else {
        let ghost all = words@;
        let verb = words.remove(0);
        assert(string_views(words@) =~= string_views(all).skip(1));
        assert(string_views(all)[0] == verb@);
        Some(Command { verb, args: words })
    }
}

} // verus!
