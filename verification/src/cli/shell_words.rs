//! What a shell makes of the command lines built here: quoting a word and
//! reading it back is the identity.

use crate::cli::vm_boot::{quoted_words, shell_quoted, shell_safe, worker_cmd};
use crate::text::{join_with, matches_at, replace_all};
use vstd::prelude::*;

verus! {

/// A character that a shell acts on outside quotes.
pub open spec fn shell_special(c: char) -> bool {
    ||| c == '|' || c == '&' || c == ';' || c == '<' || c == '>' || c == '(' || c == ')'
    ||| c == '$' || c == '`' || c == '"' || c == '*' || c == '?' || c == '[' || c == ']'
    ||| c == '#' || c == '~' || c == '%' || c == '!' || c == '{' || c == '}' || c == '\n'
}

/// The word read so far, with `c` added.
pub open spec fn grown(word: Option<Seq<char>>, c: char) -> Option<Seq<char>> {
    match word {
        Some(w) => Some(w.push(c)),
        None => Some(seq![c]),
    }
}

/// The words read so far, with the current one added.
pub open spec fn finished(done: Seq<Seq<char>>, word: Option<Seq<char>>) -> Seq<Seq<char>> {
    match word {
        Some(w) => done.push(w),
        None => done,
    }
}

/// The words of the rest `s` of a command line, after the words `done`, in the
/// middle of `word`, inside single quotes or not. `None` if a quote or an
/// escape is left open, or if a character is left for the shell to act on.
pub open spec fn words_from(
    s: Seq<char>,
    done: Seq<Seq<char>>,
    word: Option<Seq<char>>,
    quoted: bool,
) -> Option<Seq<Seq<char>>>
    decreases s.len(),
{
    if s.len() == 0 {
        if quoted {
            None
        } else {
            Some(finished(done, word))
        }
    } else if quoted {
        if s[0] == '\'' {
            words_from(s.skip(1), done, word, false)
        } else {
            words_from(s.skip(1), done, grown(word, s[0]), true)
        }
    } else if s[0] == '\'' {
        words_from(
            s.skip(1),
            done,
            Some(match word {
                Some(w) => w,
                None => Seq::empty(),
            }),
            true,
        )
    } else if s[0] == '\\' {
        if s.len() == 1 || s[1] == '\n' {
            None
        } else {
            words_from(s.skip(2), done, grown(word, s[1]), false)
        }
    } else if s[0] == ' ' || s[0] == '\t' {
        words_from(s.skip(1), finished(done, word), None, false)
    } else if shell_special(s[0]) {
        None
    } else {
        words_from(s.skip(1), done, grown(word, s[0]), false)
    }
}

/// The words that a shell reads in the command line `s`.
pub open spec fn shell_words(s: Seq<char>) -> Option<Seq<Seq<char>>> {
    words_from(s, Seq::empty(), None, false)
}

spec fn added(word: Option<Seq<char>>, s: Seq<char>) -> Option<Seq<char>> {
    match word {
        Some(w) => Some(w + s),
        None => Some(s),
    }
}

proof fn lemma_plain(s: Seq<char>, t: Seq<char>, done: Seq<Seq<char>>, word: Option<Seq<char>>)
    requires
        s.len() > 0,
        forall|i: int| 0 <= i < s.len() ==> shell_safe(#[trigger] s[i]),
    ensures
        words_from(s + t, done, word, false) == words_from(t, done, added(word, s), false),
    decreases s.len(),
{
    let rest = s.skip(1);
    assert((s + t).skip(1) == rest + t);
    assert(shell_safe(s[0]));
    assert(words_from(s + t, done, word, false) == words_from(
        rest + t,
        done,
        grown(word, s[0]),
        false,
    ));
    if rest.len() > 0 {
        assert forall|i: int| 0 <= i < rest.len() implies shell_safe(#[trigger] rest[i]) by {
            assert(shell_safe(s[i + 1]));
        }
        lemma_plain(rest, t, done, grown(word, s[0]));
        assert(added(grown(word, s[0]), rest) == added(word, s)) by {
            match word {
                Some(w) => {
                    assert(w.push(s[0]) + rest == w + s);
                },
                None => {
                    assert(seq![s[0]] + rest == s);
                },
            }
        }
    } else {
        assert(rest + t == t);
        assert(grown(word, s[0]) == added(word, s)) by {
            match word {
                Some(w) => {
                    assert(w.push(s[0]) == w + s);
                },
                None => {
                    assert(seq![s[0]] == s);
                },
            }
        }
    }
}

proof fn lemma_inside_quotes(s: Seq<char>, t: Seq<char>, done: Seq<Seq<char>>, w: Seq<char>)
    ensures
        words_from(replace_all(s, "'"@, "'\\''"@) + "'"@ + t, done, Some(w), true) == words_from(
            t,
            done,
            Some(w + s),
            false,
        ),
    decreases s.len(),
{
    reveal_strlit("'");
    reveal_strlit("'\\''");
    let q = "'"@;
    let esc = "'\\''"@;
    let full = replace_all(s, q, esc) + q + t;
    if s.len() == 0 {
        assert(full[0] == '\'');
        assert(full.skip(1) == t);
        assert(w + s == w);
    } else {
        let rest = s.skip(1);
        let tail = replace_all(rest, q, esc) + q + t;
        assert(matches_at(s, q, 0) == (s[0] == '\'')) by {
            assert(s.subrange(0, 1)[0] == s[0]);
            if s[0] == '\'' {
                assert(s.subrange(0, 1) == q);
            }
        }
        if s[0] == '\'' {
            assert(full == esc + tail);
            assert(full[0] == '\'' && full[1] == '\\' && full[2] == '\'' && full[3] == '\'');
            let f1 = full.skip(1);
            assert(words_from(full, done, Some(w), true) == words_from(f1, done, Some(w), false));
            assert(f1[0] == '\\' && f1[1] == '\'');
            let f3 = f1.skip(2);
            assert(words_from(f1, done, Some(w), false) == words_from(
                f3,
                done,
                Some(w.push('\'')),
                false,
            ));
            assert(f3[0] == '\'');
            assert(f3.skip(1) == tail);
            assert(words_from(f3, done, Some(w.push('\'')), false) == words_from(
                tail,
                done,
                Some(w.push('\'')),
                true,
            ));
        } else {
            assert(full == seq![s[0]] + tail);
            assert(full.skip(1) == tail);
        }
        lemma_inside_quotes(rest, t, done, w.push(s[0]));
        assert(w.push(s[0]) + rest == w + s);
    }
}

proof fn lemma_word(s: Seq<char>, t: Seq<char>, done: Seq<Seq<char>>)
    requires
        s.len() > 0,
    ensures
        words_from(shell_quoted(s) + t, done, None, false) == words_from(t, done, Some(s), false),
{
    if forall|i: int| 0 <= i < s.len() ==> shell_safe(#[trigger] s[i]) {
        lemma_plain(s, t, done, None);
    } else {
        reveal_strlit("'");
        let inner = replace_all(s, "'"@, "'\\''"@);
        let full = shell_quoted(s) + t;
        assert(full[0] == '\'');
        assert(full.skip(1) == inner + "'"@ + t);
        lemma_inside_quotes(s, t, done, Seq::empty());
        assert(Seq::<char>::empty() + s == s);
    }
}

proof fn lemma_words(words: Seq<Seq<char>>, t: Seq<char>)
    requires
        words.len() > 0,
        forall|i: int| 0 <= i < words.len() ==> (#[trigger] words[i]).len() > 0,
    ensures
        words_from(
            join_with(words.map_values(|w: Seq<char>| shell_quoted(w)), " "@) + t,
            Seq::empty(),
            None,
            false,
        ) == words_from(t, words.drop_last(), Some(words.last()), false),
    decreases words.len(),
{
    reveal_strlit(" ");
    let quoted = words.map_values(|w: Seq<char>| shell_quoted(w));
    if words.len() == 1 {
        lemma_word(words[0], t, Seq::empty());
        assert(words.drop_last() == Seq::<Seq<char>>::empty());
    } else {
        let init = words.drop_last();
        let last = words.last();
        let t2 = " "@ + shell_quoted(last) + t;
        assert(quoted.drop_last() == init.map_values(|w: Seq<char>| shell_quoted(w)));
        assert(join_with(quoted, " "@) + t == join_with(quoted.drop_last(), " "@) + t2);
        lemma_words(init, t2);
        assert(t2[0] == ' ');
        assert(t2.skip(1) == shell_quoted(last) + t);
        assert(init.drop_last().push(init.last()) == init);
        lemma_word(last, t, init);
    }
}

/// A non-empty text survives quoting: the shell reads its quoted form as that
/// one word, and acts on nothing in it.
pub proof fn quoted_word_reads_back(s: Seq<char>)
    requires
        s.len() > 0,
    ensures
        shell_words(shell_quoted(s)) == Some(seq![s]),
{
    lemma_word(s, Seq::empty(), Seq::empty());
    assert(shell_quoted(s) + Seq::<char>::empty() == shell_quoted(s));
    assert(Seq::<Seq<char>>::empty().push(s) == seq![s]);
}

/// The shell reads a worker's command line as the program and its arguments,
/// each as it was given.
pub proof fn worker_cmd_reads_back(program: Seq<char>, args: Seq<Seq<char>>)
    requires
        program.len() > 0,
        forall|i: int| 0 <= i < args.len() ==> (#[trigger] args[i]).len() > 0,
    ensures
        shell_words(worker_cmd(program, args)) == Some(seq![program] + args),
{
    let words = seq![program] + args;
    assert(words.map_values(|w: Seq<char>| shell_quoted(w)) == quoted_words(program, args));
    assert forall|i: int| 0 <= i < words.len() implies (#[trigger] words[i]).len() > 0 by {
        if i > 0 {
            assert(words[i] == args[i - 1]);
        }
    }
    lemma_words(words, Seq::empty());
    assert(worker_cmd(program, args) + Seq::<char>::empty() == worker_cmd(program, args));
    assert(words.drop_last().push(words.last()) == words);
}

} // verus!
