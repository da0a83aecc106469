//! Parsing of a raw, line-oriented frequency source.
//!
//! The source format is one `word count` pair per line. Parsing is
//! deliberately tolerant: a line with fewer than two whitespace-separated fields
//! is skipped, and so is a word shorter than two characters (single-letter
//! fragments are noise). Every surviving word is classified and given the
//! 1-based line position as its `rank`, so ranks are strictly increasing
//! within every category.

use vstd::prelude::*;
use vstd::string::StrSliceExecFns;

use crate::classifier::{croatian_pos_of, guess_croatian_pos};
use crate::error::Result;
use crate::frequency::{FrequencyData, PartOfSpeech, Word};
use crate::strutil::lower_of;

verus! {

/// The whitespace that separates the fields of a line: the Unicode
/// White_Space set (newline included, though line splitting consumes it
/// before field splitting ever sees one).
pub open spec fn is_space_char(c: char) -> bool {
    ||| c == ' '
    ||| c == '\t'
    ||| c == '\n'
    ||| c == '\u{000B}'
    ||| c == '\u{000C}'
    ||| c == '\r'
    ||| c == '\u{0085}'
    ||| c == '\u{00A0}'
    ||| c == '\u{1680}'
    ||| c == '\u{2000}'
    ||| c == '\u{2001}'
    ||| c == '\u{2002}'
    ||| c == '\u{2003}'
    ||| c == '\u{2004}'
    ||| c == '\u{2005}'
    ||| c == '\u{2006}'
    ||| c == '\u{2007}'
    ||| c == '\u{2008}'
    ||| c == '\u{2009}'
    ||| c == '\u{200A}'
    ||| c == '\u{2028}'
    ||| c == '\u{2029}'
    ||| c == '\u{202F}'
    ||| c == '\u{205F}'
    ||| c == '\u{3000}'
}

/// Decide field whitespace, character by character.
fn is_space(c: char) -> (r: bool)
    ensures
        r == is_space_char(c),
{
    c == ' ' || c == '\t' || c == '\n' || c == '\u{000B}' || c == '\u{000C}' || c == '\r'
        || c == '\u{0085}' || c == '\u{00A0}' || c == '\u{1680}' || c == '\u{2000}'
        || c == '\u{2001}' || c == '\u{2002}' || c == '\u{2003}' || c == '\u{2004}'
        || c == '\u{2005}' || c == '\u{2006}' || c == '\u{2007}' || c == '\u{2008}'
        || c == '\u{2009}' || c == '\u{200A}' || c == '\u{2028}' || c == '\u{2029}'
        || c == '\u{202F}' || c == '\u{205F}' || c == '\u{3000}'
}

/// The character sequences behind a vector of strings.
pub open spec fn str_views(s: Seq<String>) -> Seq<Seq<char>> {
    s.map_values(|x: String| x@)
}

/// Splitting on newline, with `cur` the line read so far: every newline
/// ends a line (empty lines are kept), and a last unterminated line counts,
/// so a trailing newline does not add an empty line.
pub open spec fn lines_acc(s: Seq<char>, cur: Seq<char>) -> Seq<Seq<char>>
    decreases s.len(),
{
    if s.len() == 0 {
        if cur.len() == 0 {
            Seq::empty()
        } else {
            seq![cur]
        }
    } else if s[0] == '\n' {
        seq![cur] + lines_acc(s.drop_first(), Seq::empty())
    } else {
        lines_acc(s.drop_first(), cur.push(s[0]))
    }
}

/// The lines of a document.
pub open spec fn lines_of(s: Seq<char>) -> Seq<Seq<char>> {
    lines_acc(s, Seq::empty())
}

/// Splitting a line into whitespace-separated fields, with `cur` the field read
/// so far; runs of whitespace count as one separator and produce no empty field.
pub open spec fn fields_acc(s: Seq<char>, cur: Seq<char>) -> Seq<Seq<char>>
    decreases s.len(),
{
    if s.len() == 0 {
        if cur.len() == 0 {
            Seq::empty()
        } else {
            seq![cur]
        }
    } else if is_space_char(s[0]) {
        if cur.len() == 0 {
            fields_acc(s.drop_first(), Seq::empty())
        } else {
            seq![cur] + fields_acc(s.drop_first(), Seq::empty())
        }
    } else {
        fields_acc(s.drop_first(), cur.push(s[0]))
    }
}

/// The whitespace-separated fields of a line.
pub open spec fn fields_of(s: Seq<char>) -> Seq<Seq<char>> {
    fields_acc(s, Seq::empty())
}

/// The word a line contributes: its first field, provided the line has at
/// least two fields and the word at least two characters.
pub open spec fn line_entry(line: Seq<char>) -> Option<Seq<char>> {
    let fs = fields_of(line);
    if fs.len() >= 2 && fs[0].len() >= 2 {
        Some(fs[0])
    } else {
        None
    }
}

/// The `(word, rank)` pairs a document contributes to one category, in
/// source order; the rank of a word is its 1-based line position.
pub open spec fn selected_words(lines: Seq<Seq<char>>, pos: PartOfSpeech) -> Seq<(Seq<char>, int)>
    decreases lines.len(),
{
    if lines.len() == 0 {
        Seq::empty()
    } else {
        let prev = selected_words(lines.drop_last(), pos);
        let i = lines.len() - 1;
        match line_entry(lines[i]) {
            Some(w) => if croatian_pos_of(lower_of(w)) == pos {
                prev.push((w, i + 1))
            } else {
                prev
            },
            None => prev,
        }
    }
}

/// One category list carries exactly the selected entries of the document:
/// same length, and entry for entry the same text, the line rank, the
/// category itself and an unknown raw count.
pub open spec fn parsed_matches(ws: Seq<Word>, es: Seq<(Seq<char>, int)>, pos: PartOfSpeech) -> bool {
    &&& ws.len() == es.len()
    &&& forall|k: int|
        0 <= k < ws.len() ==> {
            &&& (#[trigger] ws[k]).text@ == es[k].0
            &&& ws[k].rank == es[k].1
            &&& ws[k].pos == pos
            &&& ws[k].frequency == 0
        }
}

/// Every selected entry has a positive rank bounded by the line count.
pub proof fn lemma_selected_ranks(lines: Seq<Seq<char>>, pos: PartOfSpeech)
    ensures
        forall|k: int|
            0 <= k < selected_words(lines, pos).len() ==> 1 <= (#[trigger] selected_words(
                lines,
                pos,
            )[k]).1 <= lines.len(),
    decreases lines.len(),
{
    if lines.len() > 0 {
        lemma_selected_ranks(lines.drop_last(), pos);
        let s = selected_words(lines, pos);
        let prev = selected_words(lines.drop_last(), pos);
        assert forall|k: int| 0 <= k < s.len() implies 1 <= (#[trigger] s[k]).1 <= lines.len() by {
            if k < prev.len() {
                assert(s[k] == prev[k]);
            }
        }
    }
}

/// Split a document into lines.
pub fn split_lines(s: &str) -> (r: Vec<String>)
    ensures
        str_views(r@) == lines_of(s@),
{
    let n = s.unicode_len();
    let mut acc: Vec<String> = Vec::new();
    let mut i: usize = 0;
    let mut j: usize = 0;
    proof {
        assert(s@.skip(0) =~= s@);
        assert(s@.subrange(0, 0) =~= Seq::<char>::empty());
        assert(str_views(acc@) + lines_acc(s@, Seq::empty()) =~= lines_acc(s@, Seq::empty()));
    }
    while i < n
        invariant
            n == s@.len(),
            j <= i <= n,
            lines_of(s@) == str_views(acc@) + lines_acc(
                s@.skip(i as int),
                s@.subrange(j as int, i as int),
            ),
        decreases n - i,
    {
        let ghost acc0 = acc@;
        let c = s.get_char(i);
        proof {
            assert(s@.skip(i as int)[0] == c);
            assert(s@.skip(i as int).drop_first() =~= s@.skip(i + 1 as int));
        }
        if c == '\n' {
            let line = s.substring_char(j, i).to_owned();
            acc.push(line);
            proof {
                assert(str_views(acc@) =~= str_views(acc0) + seq![s@.subrange(
                    j as int,
                    i as int,
                )]);
                assert(str_views(acc@) + lines_acc(s@.skip(i + 1 as int), Seq::empty())
                    =~= str_views(acc0) + lines_acc(
                    s@.skip(i as int),
                    s@.subrange(j as int, i as int),
                ));
                assert(s@.subrange(i + 1 as int, i + 1 as int) =~= Seq::<char>::empty());
            }
            j = i + 1;
        } else {
            proof {
                assert(s@.subrange(j as int, i as int).push(c) =~= s@.subrange(
                    j as int,
                    i + 1 as int,
                ));
            }
        }
        i = i + 1;
    }
    if j < n {
        let ghost acc0 = acc@;
        let line = s.substring_char(j, n).to_owned();
        acc.push(line);
        proof {
            assert(s@.skip(n as int).len() == 0);
            assert(str_views(acc@) =~= str_views(acc0) + seq![s@.subrange(j as int, n as int)]);
            assert(lines_of(s@) =~= str_views(acc@));
        }
    } else {
        proof {
            assert(s@.skip(n as int).len() == 0);
            assert(s@.subrange(j as int, n as int).len() == 0);
            assert(lines_of(s@) =~= str_views(acc@));
        }
    }
    acc
}

/// Split a line into whitespace-separated fields.
pub fn split_fields(s: &str) -> (r: Vec<String>)
    ensures
        str_views(r@) == fields_of(s@),
{
    let n = s.unicode_len();
    let mut acc: Vec<String> = Vec::new();
    let mut i: usize = 0;
    let mut j: usize = 0;
    proof {
        assert(s@.skip(0) =~= s@);
        assert(s@.subrange(0, 0) =~= Seq::<char>::empty());
        assert(str_views(acc@) + fields_acc(s@, Seq::empty()) =~= fields_acc(s@, Seq::empty()));
    }
    while i < n
        invariant
            n == s@.len(),
            j <= i <= n,
            fields_of(s@) == str_views(acc@) + fields_acc(
                s@.skip(i as int),
                s@.subrange(j as int, i as int),
            ),
        decreases n - i,
    {
        let ghost acc0 = acc@;
        let c = s.get_char(i);
        proof {
            assert(s@.skip(i as int)[0] == c);
            assert(s@.skip(i as int).drop_first() =~= s@.skip(i + 1 as int));
        }
        if is_space(c) {
            if j < i {
                let field = s.substring_char(j, i).to_owned();
                acc.push(field);
                proof {
                    assert(str_views(acc@) =~= str_views(acc0) + seq![s@.subrange(
                        j as int,
                        i as int,
                    )]);
                    assert(str_views(acc@) + fields_acc(s@.skip(i + 1 as int), Seq::empty())
                        =~= str_views(acc0) + fields_acc(
                        s@.skip(i as int),
                        s@.subrange(j as int, i as int),
                    ));
                }
            } else {
                proof {
                    assert(s@.subrange(j as int, i as int).len() == 0);
                }
            }
            proof {
                assert(s@.subrange(i + 1 as int, i + 1 as int) =~= Seq::<char>::empty());
            }
            j = i + 1;
        } else {
            proof {
                assert(s@.subrange(j as int, i as int).push(c) =~= s@.subrange(
                    j as int,
                    i + 1 as int,
                ));
            }
        }
        i = i + 1;
    }
    if j < n {
        let ghost acc0 = acc@;
        let field = s.substring_char(j, n).to_owned();
        acc.push(field);
        proof {
            assert(s@.skip(n as int).len() == 0);
            assert(str_views(acc@) =~= str_views(acc0) + seq![s@.subrange(j as int, n as int)]);
            assert(fields_of(s@) =~= str_views(acc@));
        }
    } else {
        proof {
            assert(s@.skip(n as int).len() == 0);
            assert(s@.subrange(j as int, n as int).len() == 0);
            assert(fields_of(s@) =~= str_views(acc@));
        }
    }
    acc
}

/// Parse a whole frequency document. Parsing never fails: malformed lines
/// are skipped, every surviving word lands in the category the classifier
/// picks for it, ranked by its 1-based line position.
pub fn parse_frequency_file(content: &str, language_code: &str) -> (r: Result<FrequencyData>)
    ensures
        r is Ok,
        r->Ok_0.wf(),
        r->Ok_0.language@ == language_code@,
        forall|p: PartOfSpeech|
            parsed_matches(
                #[trigger] r->Ok_0.words_of(p),
                selected_words(lines_of(content@), p),
                p,
            ),
{
    let lines = split_lines(content);
    let ghost lv = str_views(lines@);
    let mut data = FrequencyData::new(language_code.to_owned());
    let mut i: usize = 0;
    proof {
        assert(lv.take(0) =~= Seq::<Seq<char>>::empty());
    }
    while i < lines.len()
        invariant
            lv == str_views(lines@),
            lv == lines_of(content@),
            i <= lines@.len(),
            data.wf(),
            data.language@ == language_code@,
            forall|p: PartOfSpeech|
                parsed_matches(
                    #[trigger] data.words_of(p),
                    selected_words(lv.take(i as int), p),
                    p,
                ),
        decreases lines@.len() - i,
    {
        let ghost data0 = data;
        let fields = split_fields(lines[i].as_str());
        proof {
            assert(lv.take(i + 1 as int).drop_last() =~= lv.take(i as int));
            assert(lv.take(i + 1 as int).last() == lv[i as int]);
            assert(lines[i as int]@ == lv[i as int]);
        }
        if fields.len() >= 2 {
            let word_text = &fields[0];
            proof {
                assert(word_text@ == fields_of(lv[i as int])[0]);
            }
            if word_text.unicode_len() >= 2 {
                let pos = guess_croatian_pos(word_text.as_str());
                proof {
                    assert(line_entry(lv[i as int]) == Some(word_text@));
                    lemma_selected_ranks(lv.take(i as int), pos);
                    assert forall|k: int| 0 <= k < data.words_of(pos).len() implies (
                    #[trigger] data.words_of(pos)[k]).rank < i + 1 by {
                        assert(data.words_of(pos)[k].rank == selected_words(
                            lv.take(i as int),
                            pos,
                        )[k].1);
                    }
                }
                let word = Word { text: word_text.clone(), pos, frequency: 0, rank: i + 1 };
                data.add_word(word);
                proof {
                    assert forall|p: PartOfSpeech|
                        parsed_matches(
                            #[trigger] data.words_of(p),
                            selected_words(lv.take(i + 1 as int), p),
                            p,
                        ) by {
                        if p == pos {
                            assert(selected_words(lv.take(i + 1 as int), p) == selected_words(
                                lv.take(i as int),
                                p,
                            ).push((word_text@, i + 1)));
                            assert(data.words_of(p) == data0.words_of(p).push(word));
                        } else {
                            assert(selected_words(lv.take(i + 1 as int), p) == selected_words(
                                lv.take(i as int),
                                p,
                            ));
                            assert(data.words_of(p) == data0.words_of(p));
                        }
                    }
                }
            } else {
                proof {
                    assert(line_entry(lv[i as int]) is None);
                    assert forall|p: PartOfSpeech|
                        parsed_matches(
                            #[trigger] data.words_of(p),
                            selected_words(lv.take(i + 1 as int), p),
                            p,
                        ) by {
                        assert(selected_words(lv.take(i + 1 as int), p) == selected_words(
                            lv.take(i as int),
                            p,
                        ));
                    }
                }
            }
        } else {
            proof {
                assert(line_entry(lv[i as int]) is None);
                assert forall|p: PartOfSpeech|
                    parsed_matches(
                        #[trigger] data.words_of(p),
                        selected_words(lv.take(i + 1 as int), p),
                        p,
                    ) by {
                    assert(selected_words(lv.take(i + 1 as int), p) == selected_words(
                        lv.take(i as int),
                        p,
                    ));
                }
            }
        }
        i = i + 1;
    }
    proof {
        assert(lv.take(lines@.len() as int) =~= lv);
    }
    Ok(data)
}

} // verus!
