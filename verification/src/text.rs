//! String helpers: picking the longer of two strings, lengths,
//! concatenation, breaking a string into bytes, characters and grapheme
//! clusters, and counting word frequencies.

use vstd::prelude::*;
use vstd::string::{StrSliceExecFns, StringExecFns, StringSliceAdditionalSpecFns};
use unicode_segmentation::UnicodeSegmentation;

verus! {

/// Whichever of the two strings has more characters; ties go to the second.
pub fn longest<'a>(x: &'a str, y: &'a str) -> (r: &'a str)
    ensures
        r@ == if x@.len() > y@.len() {
            x@
        } else {
            y@
        },
{
    if x.unicode_len() > y.unicode_len() {
        x
    } else {
        y
    }
}

/// Always the first string, whatever the second looks like.
pub fn longest_always_return_x<'a>(x: &'a str, y: &str) -> (r: &'a str)
    ensures
        r@ == x@,
{
    x
}

/// An owned string made inside the function; ownership moves to the caller.
pub fn lonest_expt(x: &str, y: &str) -> (r: String)
    ensures
        r@ == "really really long string"@,
{
    String::from_str("really really long string")
}

/// The length of a string in characters, through a reference.
pub fn calculate_length_via_reference(s: &String) -> (r: usize)
    ensures
        r == s@.len(),
{
    s.as_str().unicode_len()
}

/// The length of a string in characters, taking ownership.
pub fn calculate_length(s: String) -> (r: usize)
    ensures
        r == s@.len(),
{
    s.as_str().unicode_len()
}

/// The three concatenations the append exercise builds: a string grown in
/// place, an owned-plus-borrowed sum, and the same sum built afresh.
pub fn append() -> (r: (String, String, String))
    ensures
        r.0@ == "foo"@ + "bar"@ + "!"@,
        r.1@ == "Hello, "@ + "World!"@,
        r.2@ == "Hello, "@ + "World!"@,
{
    let mut s = String::from_str("foo");
    s.append("bar");
    s.append("!");
    let s1 = String::from_str("Hello, ");
    let s2 = String::from_str("World!");
    let s3 = s1.concat(s2.as_str());
    let str1 = String::from_str("Hello, ");
    let str2 = String::from_str("World!");
    let str3 = str1.concat(str2.as_str());
    (s, s3, str3)
}

/// The grapheme clusters of a string, as sequences of characters. They
/// depend on the characters alone, and concatenated in order they give the
/// string back.
pub uninterp spec fn graphemes_of(s: Seq<char>) -> Seq<Seq<char>>;

/// Relies on unicode_segmentation::UnicodeSegmentation::graphemes (with
/// extended grapheme cluster rules): the clusters partition the string in
/// order.
#[verifier::external_body]
fn split_graphemes(s: &str) -> (r: Vec<String>)
    ensures
        r.deep_view() == graphemes_of(s@),
        r.deep_view().flatten() == s@,
{
    s.graphemes(true).map(|g| g.to_string()).collect()
}

/// Breaks a string into its bytes, its characters, and its grapheme
/// clusters.
pub fn isolating_characters_from_string(s: &str) -> (r: (Vec<u8>, Vec<char>, Vec<String>))
    ensures
        r.0@ == s.spec_bytes(),
        r.1@ == s@,
        r.2.deep_view() == graphemes_of(s@),
{
    let bytes = s.as_bytes_vec();
    let mut chars: Vec<char> = Vec::new();
    let n = s.unicode_len();
    let mut i: usize = 0;
    while i < n
        invariant
            i <= n,
            n == s@.len(),
            chars@ =~= s@.subrange(0, i as int),
        decreases n - i,
    {
        let c = s.get_char(i);
        chars.push(c);
        proof {
            assert(chars@ =~= s@.subrange(0, i + 1));
        }
        i += 1;
    }
    proof {
        assert(chars@ =~= s@);
    }
    let graphemes = split_graphemes(s);
    (bytes, chars, graphemes)
}

/// How many times `w` occurs in `ws`.
pub open spec fn count_in(ws: Seq<Seq<char>>, w: Seq<char>) -> nat
    decreases ws.len(),
{
    if ws.len() == 0 {
        0
    } else {
        count_in(ws.drop_last(), w) + (if ws.last() == w {
            1nat
        } else {
            0nat
        })
    }
}

/// A word occurs at most as many times as there are words.
proof fn lemma_count_in_le_len(ws: Seq<Seq<char>>, w: Seq<char>)
    ensures
        count_in(ws, w) <= ws.len(),
    decreases ws.len(),
{
    if ws.len() > 0 {
        lemma_count_in_le_len(ws.drop_last(), w);
    }
}

/// A word that does not occur has count zero.
proof fn lemma_count_in_absent(ws: Seq<Seq<char>>, w: Seq<char>)
    requires
        forall|i: int| 0 <= i < ws.len() ==> ws[i] != w,
    ensures
        count_in(ws, w) == 0,
    decreases ws.len(),
{
    if ws.len() > 0 {
        assert(ws.drop_last() =~= ws.subrange(0, ws.len() - 1));
        lemma_count_in_absent(ws.drop_last(), w);
    }
}

/// The position of a word among the keys, if it is there.
fn find_word(freq: &Vec<(String, usize)>, word: &String) -> (r: Option<usize>)
    ensures
        (match r {
            Some(j) => j < freq@.len() && freq@[j as int].0@ == word@,
            None => forall|t: int| 0 <= t < freq@.len() ==> freq@[t].0@ != word@,
        }),
{
    let mut j: usize = 0;
    while j < freq.len()
        invariant
            j <= freq@.len(),
            forall|t: int| 0 <= t < j ==> freq@[t].0@ != word@,
        decreases freq@.len() - j,
    {
        if freq[j].0.eq(word) {
            return Some(j);
        }
        j += 1;
    }
    None
}

/// Maps each distinct word, in order of first appearance, to how often it
/// occurs in the input.
pub fn create_mapping_of_frequency_of_words(words: &Vec<String>) -> (freq: Vec<(String, usize)>)
    ensures
        forall|i: int, j: int|
            0 <= i < j < freq@.len() ==> freq@[i].0@ != freq@[j].0@,
        forall|j: int|
            0 <= j < freq@.len() ==> freq@[j].1 == count_in(words.deep_view(), #[trigger] freq@[j].0@),
        forall|i: int|
            0 <= i < words@.len() ==> exists|j: int|
                0 <= j < freq@.len() && freq@[j].0@ == #[trigger] words.deep_view()[i],
{
    let ghost all = words.deep_view();
    let mut freq: Vec<(String, usize)> = Vec::new();
    let mut k: usize = 0;
    while k < words.len()
        invariant
            k <= words@.len(),
            all == words.deep_view(),
            all.len() == words@.len(),
            forall|i: int| 0 <= i < words@.len() ==> all[i] == #[trigger] words@[i]@,
            forall|i: int, j: int| 0 <= i < j < freq@.len() ==> freq@[i].0@ != freq@[j].0@,
            forall|j: int|
                0 <= j < freq@.len() ==> freq@[j].1 == count_in(
                    all.subrange(0, k as int),
                    #[trigger] freq@[j].0@,
                ),
            forall|i: int|
                0 <= i < k ==> exists|j: int| 0 <= j < freq@.len() && freq@[j].0@ == #[trigger] all[i],
        decreases words@.len() - k,
    {
        let word = &words[k];
        let ghost prefix = all.subrange(0, k as int);
        proof {
            assert(all.subrange(0, k + 1).drop_last() =~= prefix);
            assert(all.subrange(0, k + 1).last() == all[k as int]);
            assert(all[k as int] == word@);
        }
        match find_word(&freq, word) {
            Some(j) => {
                proof {
                    lemma_count_in_le_len(prefix, word@);
                }
                let count = freq[j].1;
                let key = freq[j].0.clone();
                let ghost freq0 = freq@;
                freq.set(j, (key, count + 1));
                proof {
                    assert(forall|t: int|
                        0 <= t < freq@.len() ==> #[trigger] freq@[t].0@ == freq0[t].0@);
                    assert forall|t: int| 0 <= t < freq@.len() implies freq@[t].1 == count_in(
                        all.subrange(0, k + 1),
                        #[trigger] freq@[t].0@,
                    ) by {
                        if t == j {
                            assert(freq@[t].0@ == word@);
                        } else {
                            assert(freq@[t].0@ != word@);
                        }
                    }
                    assert forall|i: int| 0 <= i < k + 1 implies exists|j2: int|
                        0 <= j2 < freq@.len() && freq@[j2].0@ == #[trigger] all[i] by {
                        if i == k {
                            assert(freq@[j as int].0@ == all[i]);
                        } else {
                            let j2 = choose|j2: int|
                                0 <= j2 < freq0.len() && freq0[j2].0@ == all[i];
                            assert(freq@[j2].0@ == all[i]);
                        }
                    }
                }
            },
            None => {
                proof {
                    lemma_count_in_absent(prefix, word@);
                }
                let ghost freq0 = freq@;
                freq.push((word.clone(), 1));
                proof {
                    assert(freq@.len() == freq0.len() + 1);
                    assert(forall|t: int|
                        0 <= t < freq0.len() ==> #[trigger] freq@[t].0@ == freq0[t].0@);
                    assert(freq@[freq@.len() - 1].0@ == word@);
                    assert forall|t: int| 0 <= t < freq@.len() implies freq@[t].1 == count_in(
                        all.subrange(0, k + 1),
                        #[trigger] freq@[t].0@,
                    ) by {
                        if t == freq@.len() - 1 {
                            assert(freq@[t].0@ == word@);
                        } else {
                            assert(freq@[t].0@ != word@);
                        }
                    }
                    assert forall|i: int| 0 <= i < k + 1 implies exists|j2: int|
                        0 <= j2 < freq@.len() && freq@[j2].0@ == #[trigger] all[i] by {
                        if i == k {
                            assert(freq@[freq@.len() - 1].0@ == all[i]);
                        } else {
                            let j2 = choose|j2: int|
                                0 <= j2 < freq0.len() && freq0[j2].0@ == all[i];
                            assert(freq@[j2].0@ == all[i]);
                        }
                    }
                }
            },
        }
        k += 1;
    }
    proof {
        assert(all.subrange(0, all.len() as int) =~= all);
    }
    freq
}

} // verus!
