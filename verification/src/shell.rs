//! Turning an argument vector into something a remote shell will not mangle.
//!
//! Commands are passed as argument vectors so that no backend has to quote and
//! no caller can inject through a filename. SSH breaks that: its exec channel
//! carries a command *string*, which the remote login shell parses. This is the
//! one place where the property has to be re-established by hand, and the laws
//! at the end state that it is: what a shell reads is the argument vector.

use vstd::prelude::*;
use vstd::string::*;

use crate::ordered::OrderedMap;
use crate::text;

verus! {

/// What one character becomes between single quotes. A quote itself is closed,
/// escaped, and reopened.
pub open spec fn escaped(character: char) -> Seq<char> {
    if character == '\'' {
        seq!['\'', '\\', '\'', '\'']
    } else {
        seq![character]
    }
}

/// What a text becomes between single quotes.
pub open spec fn quoted_body(argument: Seq<char>) -> Seq<char>
    decreases argument.len(),
{
    if argument.len() == 0 {
        Seq::empty()
    } else {
        quoted_body(argument.drop_last()) + escaped(argument.last())
    }
}

/// One argument, wrapped so that a shell reproduces it.
pub open spec fn quoted(argument: Seq<char>) -> Seq<char> {
    seq!['\''] + quoted_body(argument) + seq!['\'']
}

/// Every argument of a vector, wrapped.
pub open spec fn all_quoted(argv: Seq<Seq<char>>) -> Seq<Seq<char>> {
    Seq::new(argv.len(), |i: int| quoted(argv[i]))
}

/// An argument vector as one shell command.
pub open spec fn command_text(argv: Seq<Seq<char>>) -> Seq<char> {
    text::joined(all_quoted(argv), seq![' '])
}

/// A variable as `env` takes it.
pub open spec fn assignment(pair: (Seq<char>, Seq<char>)) -> Seq<char> {
    pair.0 + seq!['='] + pair.1
}

/// The variables as `env` takes them.
pub open spec fn assignments(pairs: Seq<(Seq<char>, Seq<char>)>) -> Seq<Seq<char>> {
    Seq::new(pairs.len(), |i: int| assignment(pairs[i]))
}

/// The part of a remote command that enters the working directory.
pub open spec fn directory_part(cwd: Option<Seq<char>>) -> Seq<Seq<char>> {
    match cwd {
        Some(cwd) => seq![seq!['c', 'd', ' '] + quoted(cwd) + seq![' ', '&', '&']],
        None => Seq::empty(),
    }
}

/// The part of a remote command that sets the environment.
pub open spec fn environment_part(env: Map<Seq<char>, Seq<char>>) -> Seq<Seq<char>> {
    let pairs = crate::ordered::sorted_pairs(env);
    if pairs.len() == 0 {
        Seq::empty()
    } else {
        seq![seq!['e', 'n', 'v']] + all_quoted(assignments(pairs))
    }
}

/// A remote command: enter the directory, set the environment, run.
pub open spec fn remote_text(
    argv: Seq<Seq<char>>,
    cwd: Option<Seq<char>>,
    env: Map<Seq<char>, Seq<char>>,
) -> Seq<char> {
    text::joined(
        directory_part(cwd) + environment_part(env) + seq![command_text(argv)],
        seq![' '],
    )
}

/// Wrap one argument so a POSIX shell reproduces it exactly.
///
/// Single quotes suppress every form of expansion a shell performs. The only
/// character they cannot contain is a single quote itself. An empty argument
/// still needs quoting, or it would vanish from the command line.
pub fn quote(argument: &str) -> (wrapped: String)
    ensures
        wrapped@ == quoted(argument@),
{
    let list: Vec<char> = text::characters(argument);
    let mut wrapped: String = String::new();
    wrapped.push('\'');
    let mut i: usize = 0;
    assert(wrapped@ =~= seq!['\''] + quoted_body(argument@.take(0)));
    while i < list.len()
        invariant
            i <= list.len(),
            list@ == argument@,
            wrapped@ == seq!['\''] + quoted_body(argument@.take(i as int)),
        decreases list.len() - i,
    {
        let character: char = list[i];
        if character == '\'' {
            wrapped.push('\'');
            wrapped.push('\\');
            wrapped.push('\'');
        }
        wrapped.push(character);
        proof {
            let next = argument@.take(i as int + 1);
            assert(next.drop_last() =~= argument@.take(i as int));
            assert(next.last() == character);
            assert(wrapped@ =~= seq!['\''] + quoted_body(next));
        }
        i = i + 1;
    }
    assert(argument@.take(i as int) =~= argument@);
    wrapped.push('\'');
    assert(wrapped@ =~= quoted(argument@));
    wrapped
}

/// Join an argument vector into a single shell command.
///
/// Every argument is quoted, including the program name.
pub fn command_line(argv: &Vec<String>) -> (line: String)
    ensures
        line@ == command_text(text::texts(argv@)),
{
    let mut parts: Vec<String> = Vec::new();
    for i in 0..argv.len()
        invariant
            parts@.len() == i,
            forall|j: int| 0 <= j < i ==> (#[trigger] parts@[j])@ == quoted(argv@[j]@),
    {
        parts.push(quote(argv[i].as_str()));
    }
    assert(text::texts(parts@) =~= all_quoted(text::texts(argv@)));
    let line: String = text::join(&parts, " ");
    proof {
        reveal_strlit(" ");
        assert(" "@ =~= seq![' ']);
    }
    line
}

/// Build the full remote command, including working directory and environment.
///
/// SSH carries neither the caller's environment nor its working directory, so
/// the remote shell applies both. `cd` runs first and is chained with `&&`: a
/// missing directory fails the command rather than running it somewhere else.
pub fn remote_command(argv: &Vec<String>, cwd: &Option<String>, env: &OrderedMap<String>) -> (line:
    String)
    ensures
        line@ == remote_text(text::texts(argv@), text::text_option(*cwd), env@),
{
    proof {
        reveal_strlit(" ");
        reveal_strlit("cd ");
        reveal_strlit(" &&");
        reveal_strlit("env");
        reveal_strlit("=");
        assert(" "@ =~= seq![' ']);
        assert("cd "@ =~= seq!['c', 'd', ' ']);
        assert(" &&"@ =~= seq![' ', '&', '&']);
        assert("env"@ =~= seq!['e', 'n', 'v']);
        assert("="@ =~= seq!['=']);
    }
    let mut parts: Vec<String> = Vec::new();
    let ghost entering = directory_part(text::text_option(*cwd));
    if let Some(directory) = cwd {
        let wrapped: String = quote(directory.as_str());
        parts.push(text::concat3("cd ", wrapped.as_str(), " &&"));
    }
    assert(text::texts(parts@) =~= entering);
    let ghost pairs = crate::ordered::sorted_pairs(env@);
    let ghost variables = environment_part(env@);
    let count: usize = env.len();
    if count > 0 {
        parts.push("env".to_owned());
        assert(text::texts(parts@) =~= entering + seq![seq!['e', 'n', 'v']]);
        let mut i: usize = 0;
        assert(all_quoted(assignments(pairs)).take(0) =~= Seq::<Seq<char>>::empty());
        while i < count
            invariant
                i <= count,
                count == pairs.len(),
                count == env.pairs().len(),
                pairs == crate::ordered::sorted_pairs(env@),
                "="@ == seq!['='],
                text::texts(parts@) == entering + seq![seq!['e', 'n', 'v']] + all_quoted(
                    assignments(pairs),
                ).take(i as int),
            decreases count - i,
        {
            let ghost earlier = parts@;
            let (key, value) = env.at(i);
            let variable: String = text::concat3(key.as_str(), "=", value.as_str());
            parts.push(quote(variable.as_str()));
            proof {
                let all = all_quoted(assignments(pairs));
                assert(variable@ == assignment(pairs[i as int]));
                assert(text::texts(parts@) =~= text::texts(earlier).push(all[i as int]));
                assert(all.take(i as int + 1) =~= all.take(i as int).push(all[i as int]));
                assert(text::texts(parts@) =~= entering + seq![seq!['e', 'n', 'v']] + all.take(
                    i as int + 1,
                ));
            }
            i = i + 1;
        }
        assert(all_quoted(assignments(pairs)).take(count as int) =~= all_quoted(assignments(pairs)));
    }
    assert(text::texts(parts@) =~= entering + variables);
    let ghost before = text::texts(parts@);
    parts.push(command_line(argv));
    assert(text::texts(parts@) =~= before.push(command_text(text::texts(argv@))));
    assert(text::texts(parts@) =~= entering + variables + seq![command_text(text::texts(argv@))]);
    text::join(&parts, " ")
}

/// What a shell reads: a word, or the operator that runs what follows only if
/// what came before succeeded.
pub enum Token {
    Word(Seq<char>),
    AndIf,
}

/// Where a shell is while it reads.
pub enum Reading {
    /// Between words.
    Blank,
    /// In a word, outside quotes.
    Bare(Seq<char>),
    /// In a word, inside single quotes.
    Quoted(Seq<char>),
    /// In a word, after a backslash.
    Escaping(Seq<char>),
}

/// Whether a shell takes this character literally wherever it stands.
pub open spec fn is_plain(character: char) -> bool {
    ||| 'A' <= character <= 'Z'
    ||| 'a' <= character <= 'z'
    ||| '0' <= character <= '9'
}

/// A token in front of what a shell reads next.
pub open spec fn in_front(token: Token, rest: Option<Seq<Token>>) -> Option<Seq<Token>> {
    match rest {
        Some(rest) => Some(seq![token] + rest),
        None => None,
    }
}

/// What a POSIX shell reads in a command line, as its token recognition rules
/// have it. A line that would have the shell do anything but pass words on
/// (expand, redirect, substitute, start a comment) has no reading here.
pub open spec fn shell_reads(line: Seq<char>, reading: Reading) -> Option<Seq<Token>>
    decreases line.len(),
{
    if line.len() == 0 {
        match reading {
            Reading::Blank => Some(Seq::empty()),
            Reading::Bare(word) => Some(seq![Token::Word(word)]),
            Reading::Quoted(_) => None,
            Reading::Escaping(_) => None,
        }
    } else {
        let character = line.first();
        let rest = line.skip(1);
        match reading {
            Reading::Blank => if character == ' ' {
                shell_reads(rest, Reading::Blank)
            } else if character == '\'' {
                shell_reads(rest, Reading::Quoted(Seq::empty()))
            } else if character == '\\' {
                shell_reads(rest, Reading::Escaping(Seq::empty()))
            } else if character == '&' && rest.len() > 0 && rest.first() == '&' {
                in_front(Token::AndIf, shell_reads(rest.skip(1), Reading::Blank))
            } else if is_plain(character) {
                shell_reads(rest, Reading::Bare(seq![character]))
            } else {
                None
            },
            Reading::Bare(word) => if character == ' ' {
                in_front(Token::Word(word), shell_reads(rest, Reading::Blank))
            } else if character == '\'' {
                shell_reads(rest, Reading::Quoted(word))
            } else if character == '\\' {
                shell_reads(rest, Reading::Escaping(word))
            } else if is_plain(character) {
                shell_reads(rest, Reading::Bare(word.push(character)))
            } else {
                None
            },
            Reading::Quoted(word) => if character == '\'' {
                shell_reads(rest, Reading::Bare(word))
            } else {
                shell_reads(rest, Reading::Quoted(word.push(character)))
            },
            Reading::Escaping(word) => if character == '\n' {
                None
            } else {
                shell_reads(rest, Reading::Bare(word.push(character)))
            },
        }
    }
}

/// An argument vector as the words of a command.
pub open spec fn words(argv: Seq<Seq<char>>) -> Seq<Token> {
    Seq::new(argv.len(), |i: int| Token::Word(argv[i]))
}

/// The first character of a text that is put together.
proof fn first_of(character: char, rest: Seq<char>)
    ensures
        (seq![character] + rest).len() > 0,
        (seq![character] + rest).first() == character,
        (seq![character] + rest).skip(1) == rest,
{
    assert((seq![character] + rest).skip(1) =~= rest);
}

/// The quoted text of an argument, taken apart at its front.
proof fn body_from_the_front(argument: Seq<char>)
    requires
        argument.len() > 0,
    ensures
        quoted_body(argument) == escaped(argument.first()) + quoted_body(argument.skip(1)),
    decreases argument.len(),
{
    if argument.len() == 1 {
        assert(argument.drop_last() =~= Seq::<char>::empty());
        assert(argument.skip(1) =~= Seq::<char>::empty());
        assert(quoted_body(argument) =~= escaped(argument.first()) + quoted_body(argument.skip(1)));
    } else {
        body_from_the_front(argument.drop_last());
        assert(argument.drop_last().skip(1) =~= argument.skip(1).drop_last());
        assert(quoted_body(argument) =~= escaped(argument.first()) + quoted_body(argument.skip(1)));
    }
}

/// From inside the quotes of an argument, a shell reads that argument.
proof fn body_is_read(argument: Seq<char>, word: Seq<char>, rest: Seq<char>)
    ensures
        shell_reads(quoted_body(argument) + seq!['\''] + rest, Reading::Quoted(word))
            == shell_reads(rest, Reading::Bare(word + argument)),
    decreases argument.len(),
{
    if argument.len() == 0 {
        assert(quoted_body(argument) + seq!['\''] + rest =~= seq!['\''] + rest);
        first_of('\'', rest);
        assert(word + argument =~= word);
    } else {
        let character = argument.first();
        let others = argument.skip(1);
        let line = quoted_body(argument) + seq!['\''] + rest;
        let tail = quoted_body(others) + seq!['\''] + rest;
        body_from_the_front(argument);
        body_is_read(others, word.push(character), rest);
        assert(word.push(character) + others =~= word + argument);
        if character == '\'' {
            let third = seq!['\''] + tail;
            let second = seq!['\''] + third;
            let first = seq!['\\'] + second;
            assert(line =~= seq!['\''] + first);
            first_of('\'', first);
            first_of('\\', second);
            first_of('\'', third);
            first_of('\'', tail);
            assert(shell_reads(line, Reading::Quoted(word)) == shell_reads(
                first,
                Reading::Bare(word),
            ));
            assert(shell_reads(first, Reading::Bare(word)) == shell_reads(
                second,
                Reading::Escaping(word),
            ));
            assert(shell_reads(second, Reading::Escaping(word)) == shell_reads(
                third,
                Reading::Bare(word.push(character)),
            ));
            assert(shell_reads(third, Reading::Bare(word.push(character))) == shell_reads(
                tail,
                Reading::Quoted(word.push(character)),
            ));
        } else {
            assert(line =~= seq![character] + tail);
            first_of(character, tail);
        }
    }
}

/// A shell that reads a quoted argument is in the middle of exactly that word.
proof fn quoted_is_read(argument: Seq<char>, rest: Seq<char>)
    ensures
        shell_reads(quoted(argument) + rest, Reading::Blank) == shell_reads(
            rest,
            Reading::Bare(argument),
        ),
{
    let line = quoted(argument) + rest;
    let tail = quoted_body(argument) + seq!['\''] + rest;
    assert(line =~= seq!['\''] + tail);
    first_of('\'', tail);
    body_is_read(argument, Seq::empty(), rest);
    assert(Seq::<char>::empty() + argument =~= argument);
}

/// A piece of a line that reads as `tokens` whatever comes after the blank that
/// ends it.
pub open spec fn reads_as(piece: Seq<char>, tokens: Seq<Token>) -> bool {
    &&& shell_reads(piece, Reading::Blank) == Some(tokens)
    &&& forall|rest: Seq<char>|
        #![trigger shell_reads(piece + seq![' '] + rest, Reading::Blank)]
        shell_reads(piece + seq![' '] + rest, Reading::Blank) == after(
            tokens,
            shell_reads(rest, Reading::Blank),
        )
}

/// Tokens in front of what a shell reads next.
pub open spec fn after(tokens: Seq<Token>, rest: Option<Seq<Token>>) -> Option<Seq<Token>> {
    match rest {
        Some(rest) => Some(tokens + rest),
        None => None,
    }
}

/// The tokens of several pieces, one after the other.
pub open spec fn all_tokens(lists: Seq<Seq<Token>>) -> Seq<Token>
    decreases lists.len(),
{
    if lists.len() == 0 {
        Seq::empty()
    } else {
        lists.first() + all_tokens(lists.skip(1))
    }
}

/// A quoted argument reads as that argument.
///
/// This is what quoting is for: nothing in an argument can end the word, start
/// another, or be expanded.
pub proof fn a_quoted_argument_reads_as_itself(argument: Seq<char>)
    ensures
        reads_as(quoted(argument), seq![Token::Word(argument)]),
{
    quoted_is_read(argument, Seq::empty());
    assert(quoted(argument) + Seq::<char>::empty() =~= quoted(argument));
    assert forall|rest: Seq<char>|
        #![trigger shell_reads(quoted(argument) + seq![' '] + rest, Reading::Blank)]
        shell_reads(quoted(argument) + seq![' '] + rest, Reading::Blank) == after(
            seq![Token::Word(argument)],
            shell_reads(rest, Reading::Blank),
        ) by {
        quoted_is_read(argument, seq![' '] + rest);
        assert(quoted(argument) + (seq![' '] + rest) =~= quoted(argument) + seq![' '] + rest);
        first_of(' ', rest);
    }
}

/// The tokens of a single piece.
proof fn one_list(lists: Seq<Seq<Token>>)
    requires
        lists.len() == 1,
    ensures
        all_tokens(lists) == lists[0],
{
    assert(all_tokens(lists.skip(1)) =~= Seq::<Token>::empty());
    assert(all_tokens(lists) =~= lists[0]);
}

/// The blank between two pieces keeps them apart.
proof fn pieces_are_read(pieces: Seq<Seq<char>>, lists: Seq<Seq<Token>>)
    requires
        pieces.len() == lists.len(),
        forall|i: int| 0 <= i < pieces.len() ==> reads_as(#[trigger] pieces[i], lists[i]),
    ensures
        reads_as(text::joined(pieces, seq![' ']), all_tokens(lists)),
    decreases pieces.len(),
{
    let line = text::joined(pieces, seq![' ']);
    let tokens = all_tokens(lists);
    if pieces.len() == 0 {
        assert forall|rest: Seq<char>|
            #![trigger shell_reads(line + seq![' '] + rest, Reading::Blank)]
            shell_reads(line + seq![' '] + rest, Reading::Blank) == after(
                tokens,
                shell_reads(rest, Reading::Blank),
            ) by {
            assert(line + seq![' '] + rest =~= seq![' '] + rest);
            first_of(' ', rest);
            if let Some(next) = shell_reads(rest, Reading::Blank) {
                assert(tokens + next =~= next);
            }
        }
    } else if pieces.len() == 1 {
        assert(pieces.skip(1).len() == 0);
        assert(line =~= pieces[0]);
        one_list(lists);
        assert(reads_as(pieces[0], lists[0]));
    } else {
        let others = pieces.skip(1);
        let other_lists = lists.skip(1);
        assert forall|i: int| 0 <= i < others.len() implies reads_as(
            #[trigger] others[i],
            other_lists[i],
        ) by {
            assert(reads_as(pieces[i + 1], lists[i + 1]));
        }
        pieces_are_read(others, other_lists);
        let tail = text::joined(others, seq![' ']);
        assert(line =~= pieces[0] + seq![' '] + tail);
        assert(reads_as(pieces[0], lists[0]));
        assert(shell_reads(pieces[0] + seq![' '] + tail, Reading::Blank) == after(
            lists[0],
            shell_reads(tail, Reading::Blank),
        ));
        assert forall|rest: Seq<char>|
            #![trigger shell_reads(line + seq![' '] + rest, Reading::Blank)]
            shell_reads(line + seq![' '] + rest, Reading::Blank) == after(
                tokens,
                shell_reads(rest, Reading::Blank),
            ) by {
            let next = tail + seq![' '] + rest;
            assert(line + seq![' '] + rest =~= pieces[0] + seq![' '] + next);
            assert(shell_reads(pieces[0] + seq![' '] + next, Reading::Blank) == after(
                lists[0],
                shell_reads(next, Reading::Blank),
            ));
            if let Some(read) = shell_reads(rest, Reading::Blank) {
                assert(lists[0] + (all_tokens(other_lists) + read) =~= tokens + read);
            }
        }
    }
}

/// Words, each in a list of its own, are the words of the command.
proof fn single_words(argv: Seq<Seq<char>>)
    ensures
        all_tokens(Seq::new(argv.len(), |i: int| seq![Token::Word(argv[i])])) == words(argv),
    decreases argv.len(),
{
    let lists = Seq::new(argv.len(), |i: int| seq![Token::Word(argv[i])]);
    if argv.len() > 0 {
        let others = argv.skip(1);
        single_words(others);
        assert(lists.skip(1) =~= Seq::new(others.len(), |i: int| seq![Token::Word(others[i])]));
        assert(lists.first() + words(others) =~= words(argv));
    } else {
        assert(words(argv) =~= Seq::<Token>::empty());
    }
}

/// A shell that is handed a command line reads the argument vector it was made
/// from: as many words, and each of them unchanged.
pub proof fn a_command_line_reads_as_its_arguments(argv: Seq<Seq<char>>)
    ensures
        reads_as(command_text(argv), words(argv)),
        shell_reads(command_text(argv), Reading::Blank) == Some(words(argv)),
{
    let lists = Seq::new(argv.len(), |i: int| seq![Token::Word(argv[i])]);
    assert forall|i: int| 0 <= i < argv.len() implies reads_as(
        #[trigger] all_quoted(argv)[i],
        lists[i],
    ) by {
        a_quoted_argument_reads_as_itself(argv[i]);
    }
    pieces_are_read(all_quoted(argv), lists);
    single_words(argv);
}

/// What a shell should read in a remote command.
pub open spec fn remote_tokens(
    argv: Seq<Seq<char>>,
    cwd: Option<Seq<char>>,
    env: Map<Seq<char>, Seq<char>>,
) -> Seq<Token> {
    let pairs = crate::ordered::sorted_pairs(env);
    let entering = match cwd {
        Some(cwd) => seq![Token::Word(seq!['c', 'd']), Token::Word(cwd), Token::AndIf],
        None => Seq::empty(),
    };
    let variables = if pairs.len() == 0 {
        Seq::empty()
    } else {
        seq![Token::Word(seq!['e', 'n', 'v'])] + words(assignments(pairs))
    };
    entering + variables + words(argv)
}

/// Entering a directory reads as three tokens.
proof fn entering_is_read(cwd: Seq<char>)
    ensures
        reads_as(
            seq!['c', 'd', ' '] + quoted(cwd) + seq![' ', '&', '&'],
            seq![Token::Word(seq!['c', 'd']), Token::Word(cwd), Token::AndIf],
        ),
{
    let piece = seq!['c', 'd', ' '] + quoted(cwd) + seq![' ', '&', '&'];
    let tokens = seq![Token::Word(seq!['c', 'd']), Token::Word(cwd), Token::AndIf];
    assert(piece + Seq::<char>::empty() =~= piece);
    entering_goes_on(cwd, Seq::empty());
    assert forall|rest: Seq<char>|
        #![trigger shell_reads(piece + seq![' '] + rest, Reading::Blank)]
        shell_reads(piece + seq![' '] + rest, Reading::Blank) == after(
            tokens,
            shell_reads(rest, Reading::Blank),
        ) by {
        entering_goes_on(cwd, seq![' '] + rest);
        assert(piece + (seq![' '] + rest) =~= piece + seq![' '] + rest);
        first_of(' ', rest);
    }
    assert(tokens + Seq::<Token>::empty() =~= tokens);
}

/// Entering a directory reads as three tokens, in front of whatever follows.
proof fn entering_goes_on(cwd: Seq<char>, rest: Seq<char>)
    ensures
        shell_reads(
            seq!['c', 'd', ' '] + quoted(cwd) + seq![' ', '&', '&'] + rest,
            Reading::Blank,
        ) == after(
            seq![Token::Word(seq!['c', 'd']), Token::Word(cwd), Token::AndIf],
            shell_reads(rest, Reading::Blank),
        ),
{
    let line = seq!['c', 'd', ' '] + quoted(cwd) + seq![' ', '&', '&'] + rest;
    let operator = seq!['&'] + (seq!['&'] + rest);
    let blank = seq![' '] + operator;
    let argument = quoted(cwd) + blank;
    let gap = seq![' '] + argument;
    let second = seq!['d'] + gap;
    assert(line =~= seq!['c'] + second);
    first_of('c', second);
    first_of('d', gap);
    first_of(' ', argument);
    first_of(' ', operator);
    first_of('&', seq!['&'] + rest);
    first_of('&', rest);
    quoted_is_read(cwd, blank);
    assert(seq!['c'].push('d') =~= seq!['c', 'd']);
    let read = shell_reads(rest, Reading::Blank);
    assert(shell_reads(operator, Reading::Blank) == in_front(Token::AndIf, read));
    assert(shell_reads(blank, Reading::Bare(cwd)) == in_front(
        Token::Word(cwd),
        shell_reads(operator, Reading::Blank),
    ));
    assert(shell_reads(gap, Reading::Bare(seq!['c', 'd'])) == in_front(
        Token::Word(seq!['c', 'd']),
        shell_reads(argument, Reading::Blank),
    ));
    assert(shell_reads(second, Reading::Bare(seq!['c'])) == shell_reads(
        gap,
        Reading::Bare(seq!['c', 'd']),
    ));
    assert(shell_reads(line, Reading::Blank) == shell_reads(second, Reading::Bare(seq!['c'])));
    if let Some(tokens) = read {
        assert(seq![Token::Word(seq!['c', 'd'])] + (seq![Token::Word(cwd)] + (seq![Token::AndIf]
            + tokens)) =~= seq![Token::Word(seq!['c', 'd']), Token::Word(cwd), Token::AndIf]
            + tokens);
    }
}

/// The word `env` reads as itself.
proof fn env_is_read()
    ensures
        reads_as(seq!['e', 'n', 'v'], seq![Token::Word(seq!['e', 'n', 'v'])]),
{
    let piece = seq!['e', 'n', 'v'];
    let tokens = seq![Token::Word(piece)];
    assert(piece + Seq::<char>::empty() =~= piece);
    env_goes_on(Seq::empty());
    assert forall|rest: Seq<char>|
        #![trigger shell_reads(piece + seq![' '] + rest, Reading::Blank)]
        shell_reads(piece + seq![' '] + rest, Reading::Blank) == after(
            tokens,
            shell_reads(rest, Reading::Blank),
        ) by {
        env_goes_on(seq![' '] + rest);
        assert(piece + (seq![' '] + rest) =~= piece + seq![' '] + rest);
        first_of(' ', rest);
    }
}

/// After `env` a shell is in the middle of that word.
proof fn env_goes_on(rest: Seq<char>)
    ensures
        shell_reads(seq!['e', 'n', 'v'] + rest, Reading::Blank) == shell_reads(
            rest,
            Reading::Bare(seq!['e', 'n', 'v']),
        ),
{
    let line = seq!['e', 'n', 'v'] + rest;
    let third = seq!['v'] + rest;
    let second = seq!['n'] + third;
    assert(line =~= seq!['e'] + second);
    first_of('e', second);
    first_of('n', third);
    first_of('v', rest);
    assert(seq!['e'].push('n') =~= seq!['e', 'n']);
    assert(seq!['e', 'n'].push('v') =~= seq!['e', 'n', 'v']);
    assert(shell_reads(line, Reading::Blank) == shell_reads(second, Reading::Bare(seq!['e'])));
    assert(shell_reads(second, Reading::Bare(seq!['e'])) == shell_reads(
        third,
        Reading::Bare(seq!['e', 'n']),
    ));
}

/// Tokens of a longer list of pieces.
proof fn all_tokens_append(left: Seq<Seq<Token>>, right: Seq<Seq<Token>>)
    ensures
        all_tokens(left + right) == all_tokens(left) + all_tokens(right),
    decreases left.len(),
{
    if left.len() == 0 {
        assert(left + right =~= right);
        assert(all_tokens(left) + all_tokens(right) =~= all_tokens(right));
    } else {
        all_tokens_append(left.skip(1), right);
        assert((left + right).skip(1) =~= left.skip(1) + right);
        assert(left.first() + (all_tokens(left.skip(1)) + all_tokens(right)) =~= all_tokens(left)
            + all_tokens(right));
    }
}

/// A shell that is handed a remote command enters the directory, and only if
/// that succeeds runs the argument vector, unchanged, with the variables set.
pub proof fn a_remote_command_reads_as_intended(
    argv: Seq<Seq<char>>,
    cwd: Option<Seq<char>>,
    env: Map<Seq<char>, Seq<char>>,
)
    ensures
        shell_reads(remote_text(argv, cwd, env), Reading::Blank) == Some(
            remote_tokens(argv, cwd, env),
        ),
{
    let pairs = crate::ordered::sorted_pairs(env);
    let values = assignments(pairs);
    let entering = match cwd {
        Some(cwd) => seq![seq![Token::Word(seq!['c', 'd']), Token::Word(cwd), Token::AndIf]],
        None => Seq::empty(),
    };
    let singles = Seq::new(values.len(), |i: int| seq![Token::Word(values[i])]);
    let variables = if pairs.len() == 0 {
        Seq::empty()
    } else {
        seq![seq![Token::Word(seq!['e', 'n', 'v'])]] + singles
    };
    let command = seq![words(argv)];
    let pieces = directory_part(cwd) + environment_part(env) + seq![command_text(argv)];
    let lists = entering + variables + command;
    let skipped = entering.len() as int;
    assert forall|i: int| 0 <= i < pieces.len() implies reads_as(#[trigger] pieces[i], lists[i]) by {
        if i < entering.len() {
            entering_is_read(cwd->0);
        } else if i == pieces.len() - 1 {
            a_command_line_reads_as_its_arguments(argv);
        } else if i == skipped {
            env_is_read();
        } else {
            a_quoted_argument_reads_as_itself(values[i - skipped - 1]);
            assert(pieces[i] == quoted(values[i - skipped - 1]));
        }
    }
    pieces_are_read(pieces, lists);
    all_tokens_append(entering + variables, command);
    all_tokens_append(entering, variables);
    one_list(command);
    if cwd is Some {
        one_list(entering);
    }
    if pairs.len() > 0 {
        single_words(values);
        assert(variables.skip(1) =~= singles);
        assert(all_tokens(variables) =~= seq![Token::Word(seq!['e', 'n', 'v'])] + words(values));
    }
    assert(all_tokens(lists) =~= remote_tokens(argv, cwd, env));
}

/// What a shell should read in a remote command, token by token: `cd`, the
/// directory and `&&` where there is one; `env` and a `KEY=value` word for each
/// variable, in the order of their names, where there are any; and then the
/// arguments, each a word of its own.
pub proof fn a_remote_command_is_read_token_by_token(
    argv: Seq<Seq<char>>,
    cwd: Option<Seq<char>>,
    env: Map<Seq<char>, Seq<char>>,
)
    ensures
        ({
            let pairs = crate::ordered::sorted_pairs(env);
            let entered: int = if cwd is Some {
                3
            } else {
                0
            };
            let set: int = if pairs.len() > 0 {
                1 + pairs.len() as int
            } else {
                0
            };
            let read = shell_reads(remote_text(argv, cwd, env), Reading::Blank);
            &&& read is Some
            &&& read->0.len() == entered + set + argv.len()
            &&& cwd is Some ==> {
                &&& read->0[0] == Token::Word("cd"@)
                &&& read->0[1] == Token::Word(cwd->0)
                &&& read->0[2] is AndIf
            }
            &&& pairs.len() > 0 ==> read->0[entered] == Token::Word("env"@)
            &&& forall|i: int|
                0 <= i < pairs.len() ==> read->0[entered + 1 + i] == Token::Word(
                    #[trigger] pairs[i].0 + "="@ + pairs[i].1,
                )
            &&& forall|i: int|
                0 <= i < argv.len() ==> read->0[entered + set + i] == Token::Word(
                    #[trigger] argv[i],
                )
        }),
{
    reveal_strlit("cd");
    reveal_strlit("env");
    reveal_strlit("=");
    assert("cd"@ =~= seq!['c', 'd']);
    assert("env"@ =~= seq!['e', 'n', 'v']);
    assert("="@ =~= seq!['=']);
    a_remote_command_reads_as_intended(argv, cwd, env);
}

/// A command line reads as its arguments, each a word of its own, unchanged.
pub proof fn a_command_line_is_read_word_by_word(argv: Seq<Seq<char>>)
    ensures
        ({
            let read = shell_reads(command_text(argv), Reading::Blank);
            &&& read is Some
            &&& read->0.len() == argv.len()
            &&& forall|i: int|
                0 <= i < argv.len() ==> #[trigger] read->0[i] == Token::Word(argv[i])
        }),
{
    a_command_line_reads_as_its_arguments(argv);
}

/// Quoting goes character by character over both parts of a text.
proof fn quoting_goes_over_both(left: Seq<char>, right: Seq<char>)
    ensures
        quoted_body(left + right) == quoted_body(left) + quoted_body(right),
    decreases right.len(),
{
    if right.len() == 0 {
        assert(left + right =~= left);
        assert(quoted_body(left) + quoted_body(right) =~= quoted_body(left));
    } else {
        assert((left + right).drop_last() =~= left + right.drop_last());
        assert((left + right).last() == right.last());
        quoting_goes_over_both(left, right.drop_last());
        assert(quoted_body(left + right) =~= quoted_body(left) + quoted_body(right));
    }
}

/// Text without a quote is put between quotes as it is.
proof fn unquoted_text_is_kept(text: Seq<char>)
    requires
        !text.contains('\''),
    ensures
        quoted_body(text) == text,
    decreases text.len(),
{
    if text.len() > 0 {
        let shorter = text.drop_last();
        assert(text[text.len() - 1] != '\'');
        assert(!shorter.contains('\'')) by {
            if shorter.contains('\'') {
                let i = choose|i: int| 0 <= i < shorter.len() && shorter[i] == '\'';
                assert(text[i] == '\'');
            }
        }
        unquoted_text_is_kept(shorter);
        assert(quoted_body(text) =~= text);
    }
}

/// An argument stands between two quotes as it is, but for each quote in it,
/// which is closed, escaped and reopened.
pub proof fn an_argument_is_quoted(plain: Seq<char>, left: Seq<char>, right: Seq<char>)
    ensures
        !plain.contains('\'') ==> quoted(plain) == seq!['\''] + plain + seq!['\''],
        quoted(left + seq!['\''] + right) == quoted(left) + seq!['\\', '\''] + quoted(right),
{
    if !plain.contains('\'') {
        unquoted_text_is_kept(plain);
    }
    let quote = seq!['\''];
    quoting_goes_over_both(left + quote, right);
    quoting_goes_over_both(left, quote);
    assert(quote.drop_last() =~= Seq::empty());
    assert(quoted_body(quote) =~= seq!['\'', '\\', '\'', '\'']) by {
        assert(quoted_body(quote.drop_last()) =~= Seq::empty());
    }
    assert(quoted(left + quote + right) =~= quoted(left) + seq!['\\', '\''] + quoted(right));
}

} // verus!
