//! Finding a module in the lines of the kernel's list of loaded modules.

use vstd::prelude::*;

verus! {

/// The characters with Unicode's `White_Space` property (PropList.txt),
/// which are those `char::is_whitespace` accepts.
pub open spec fn is_white_space(c: char) -> bool {
    let u = c as u32;
    ||| 0x9 <= u <= 0xD
    ||| u == 0x20
    ||| u == 0x85
    ||| u == 0xA0
    ||| u == 0x1680
    ||| 0x2000 <= u <= 0x200A
    ||| u == 0x2028
    ||| u == 0x2029
    ||| u == 0x202F
    ||| u == 0x205F
    ||| u == 0x3000
}

/// Whether `c` is white space.
pub fn white_space(c: char) -> (ws: bool)
    ensures
        ws == is_white_space(c),
{
    let u = c as u32;
    (0x9 <= u && u <= 0xD) || u == 0x20 || u == 0x85 || u == 0xA0 || u == 0x1680
        || (0x2000 <= u && u <= 0x200A) || u == 0x2028 || u == 0x2029 || u == 0x202F
        || u == 0x205F || u == 0x3000
}

/// The first position at or after `i` that does not hold white space.
pub open spec fn white_end(s: Seq<char>, i: int) -> int
    decreases s.len() - i,
{
    if 0 <= i < s.len() && is_white_space(s[i]) {
        white_end(s, i + 1)
    } else {
        i
    }
}

/// The first position at or after `i` that holds white space, or the end.
pub open spec fn word_end(s: Seq<char>, i: int) -> int
    decreases s.len() - i,
{
    if 0 <= i < s.len() && !is_white_space(s[i]) {
        word_end(s, i + 1)
    } else {
        i
    }
}

/// The first word of `s`, words being separated by white space; `None`
/// where `s` holds nothing but white space.
pub open spec fn first_word(s: Seq<char>) -> Option<Seq<char>> {
    let start = white_end(s, 0);
    if start < s.len() {
        Some(s.subrange(start, word_end(s, start)))
    } else {
        None
    }
}

proof fn lemma_white_end(s: Seq<char>, i: int)
    requires
        0 <= i <= s.len(),
    ensures
        i <= white_end(s, i) <= s.len(),
        forall|k: int| i <= k < white_end(s, i) ==> is_white_space(#[trigger] s[k]),
        white_end(s, i) < s.len() ==> !is_white_space(s[white_end(s, i)]),
    decreases s.len() - i,
{
    if i < s.len() && is_white_space(s[i]) {
        lemma_white_end(s, i + 1);
    }
}

proof fn lemma_word_end(s: Seq<char>, i: int)
    requires
        0 <= i <= s.len(),
    ensures
        i <= word_end(s, i) <= s.len(),
        forall|k: int| i <= k < word_end(s, i) ==> !is_white_space(#[trigger] s[k]),
        word_end(s, i) < s.len() ==> is_white_space(s[word_end(s, i)]),
    decreases s.len() - i,
{
    if i < s.len() && !is_white_space(s[i]) {
        lemma_word_end(s, i + 1);
    }
}

/// `word` stands in `s` at `start` as a whole word that only white space
/// precedes: a non-empty run of characters that are not white space, with
/// white space or the end of `s` after it.
pub open spec fn first_word_at(s: Seq<char>, word: Seq<char>, start: int) -> bool {
    &&& 0 <= start
    &&& start + word.len() <= s.len()
    &&& word.len() > 0
    &&& s.subrange(start, start + word.len()) == word
    &&& forall|k: int| 0 <= k < start ==> is_white_space(#[trigger] s[k])
    &&& forall|k: int| 0 <= k < word.len() ==> !is_white_space(#[trigger] word[k])
    &&& start + word.len() < s.len() ==> is_white_space(s[start + word.len()])
}

/// The first word of a line stands in it after nothing but white space, as
/// a whole word; a line of nothing but white space has no first word.
pub proof fn law_first_word(s: Seq<char>)
    ensures
        first_word(s) is None <==> forall|k: int| 0 <= k < s.len() ==> is_white_space(#[trigger] s[k]),
        first_word(s) is Some ==> exists|start: int| #[trigger] first_word_at(s, first_word(s)->0, start),
{
    lemma_white_end(s, 0);
    let start = white_end(s, 0);
    if start < s.len() {
        lemma_word_end(s, start);
        let end = word_end(s, start);
        let word = s.subrange(start, end);
        assert forall|k: int| 0 <= k < word.len() implies !is_white_space(#[trigger] word[k]) by {
            assert(word[k] == s[start + k]);
        }
        assert(first_word_at(s, first_word(s)->0, start));
    }
}

/// The first word of a line.
pub fn first_word_of(line: &str) -> (word: Option<String>)
    ensures
        word.is_some() == first_word(line@).is_some(),
        word matches Some(w) ==> w@ == first_word(line@)->0,
{
    let len = line.unicode_len();
    let mut start: usize = 0;
    while start < len && white_space(line.get_char(start))
        invariant
            start <= len,
            len == line@.len(),
            white_end(line@, start as int) == white_end(line@, 0),
        decreases len - start,
    {
        start = start + 1;
    }
    if start == len {
        return None;
    }
    let mut end: usize = start;
    while end < len && !white_space(line.get_char(end))
        invariant
            start <= end <= len,
            len == line@.len(),
            word_end(line@, end as int) == word_end(line@, start as int),
        decreases len - end,
    {
        end = end + 1;
    }
    Some(line.substring_char(start, end).to_owned())
}

/// The Linux kernel module `name` is loaded: it is listed in `proc_modules`,
/// the lines of the kernel's module list, as the first word of some line.
pub fn have_linux_module(name: &str, proc_modules: &Vec<String>) -> (loaded: bool)
    ensures
        loaded == exists|i: int| 0 <= i < proc_modules@.len() && first_word((#[trigger] proc_modules@[i])@) == Some(name@),
{
    let wanted = name.to_owned();
    let mut i: usize = 0;
    while i < proc_modules.len()
        invariant
            i <= proc_modules@.len(),
            wanted@ == name@,
            forall|j: int| 0 <= j < i ==> first_word((#[trigger] proc_modules@[j])@) != Some(name@),
        decreases proc_modules@.len() - i,
    {
        match first_word_of(proc_modules[i].as_str()) {
            Some(word) => {
                if word == wanted {
                    return true;
                }
            },
            None => {},
        }
        i = i + 1;
    }
    false
}

} // verus!
