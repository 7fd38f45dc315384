//! What holds of the interpretation of every request.

use crate::command::{
    argument, arguments_taken, computes_deadline, name_of, outcome, parsed, spelled_as, Command,
    CommandView, Name,
};
use crate::protocol::error::{Failure, RedisCommandError};
use crate::protocol::Token;
use vstd::prelude::*;
use vstd::string::StringSliceAdditionalSpecFns;
use vstd::utf8::{is_ascii_chars, is_ascii_chars_encode_utf8};

verus! {

/// The name of a command in capital letters.
pub open spec fn upper_case(name: Name) -> Seq<u8> {
    match name {
        Name::SetKey => "SET".spec_bytes(),
        Name::Setnx => "SETNX".spec_bytes(),
        Name::Setex => "SETEX".spec_bytes(),
        Name::MSetnx => "MSETNX".spec_bytes(),
        Name::Expire => "EXPIRE".spec_bytes(),
        Name::PExpire => "PEXPIRE".spec_bytes(),
        Name::Get => "GET".spec_bytes(),
        Name::GetSet => "GETSET".spec_bytes(),
        Name::Del => "DEL".spec_bytes(),
        Name::Incr => "INCR".spec_bytes(),
        Name::Exists => "EXISTS".spec_bytes(),
        Name::Info => "INFO".spec_bytes(),
        Name::Ping => "PING".spec_bytes(),
        Name::Quit => "QUIT".spec_bytes(),
    }
}

/// The name of a command in small letters.
pub open spec fn lower_case(name: Name) -> Seq<u8> {
    match name {
        Name::SetKey => "set".spec_bytes(),
        Name::Setnx => "setnx".spec_bytes(),
        Name::Setex => "setex".spec_bytes(),
        Name::MSetnx => "msetnx".spec_bytes(),
        Name::Expire => "expire".spec_bytes(),
        Name::PExpire => "pexpire".spec_bytes(),
        Name::Get => "get".spec_bytes(),
        Name::GetSet => "getset".spec_bytes(),
        Name::Del => "del".spec_bytes(),
        Name::Incr => "incr".spec_bytes(),
        Name::Exists => "exists".spec_bytes(),
        Name::Info => "info".spec_bytes(),
        Name::Ping => "ping".spec_bytes(),
        Name::Quit => "quit".spec_bytes(),
    }
}

/// A word of ASCII characters has one byte for each character: that
/// character's code. The first seven are spelled out, which is as long as a
/// command name gets.
proof fn lemma_ascii_word(word: &str)
    requires
        is_ascii_chars(word@),
    ensures
        word.spec_bytes().len() == word@.len(),
        word@.len() > 0 ==> word.spec_bytes()[0] == word@[0] as u8,
        word@.len() > 1 ==> word.spec_bytes()[1] == word@[1] as u8,
        word@.len() > 2 ==> word.spec_bytes()[2] == word@[2] as u8,
        word@.len() > 3 ==> word.spec_bytes()[3] == word@[3] as u8,
        word@.len() > 4 ==> word.spec_bytes()[4] == word@[4] as u8,
        word@.len() > 5 ==> word.spec_bytes()[5] == word@[5] as u8,
        word@.len() > 6 ==> word.spec_bytes()[6] == word@[6] as u8,
{
    is_ascii_chars_encode_utf8(word@);
}

/// A word names a command exactly when it is one of that command's
/// spellings: no spelling belongs to two commands.
pub proof fn a_spelling_names_its_command(name: Name, word: Seq<u8>)
    ensures
        spelled_as(name, word) <==> name_of(word) == Some(name),
{
    reveal_strlit("SET");
    reveal_strlit("set");
    reveal_strlit("Set");
    reveal_strlit("SETEX");
    reveal_strlit("setex");
    reveal_strlit("SetEx");
    reveal_strlit("Setex");
    reveal_strlit("MSETNX");
    reveal_strlit("MSetnx");
    reveal_strlit("msetnx");
    reveal_strlit("SETNX");
    reveal_strlit("setnx");
    reveal_strlit("Setnx");
    reveal_strlit("EXPIRE");
    reveal_strlit("expire");
    reveal_strlit("Expire");
    reveal_strlit("PEXPIRE");
    reveal_strlit("Pexpire");
    reveal_strlit("PExpire");
    reveal_strlit("pexpire");
    reveal_strlit("GET");
    reveal_strlit("get");
    reveal_strlit("Get");
    reveal_strlit("GETSET");
    reveal_strlit("getset");
    reveal_strlit("Getset");
    reveal_strlit("GetSet");
    reveal_strlit("DEL");
    reveal_strlit("del");
    reveal_strlit("Del");
    reveal_strlit("INCR");
    reveal_strlit("incr");
    reveal_strlit("Incr");
    reveal_strlit("EXISTS");
    reveal_strlit("exists");
    reveal_strlit("Exists");
    reveal_strlit("INFO");
    reveal_strlit("info");
    reveal_strlit("Info");
    reveal_strlit("PING");
    reveal_strlit("ping");
    reveal_strlit("Ping");
    reveal_strlit("QUIT");
    reveal_strlit("quit");
    reveal_strlit("Quit");
    lemma_ascii_word("SET");
    lemma_ascii_word("set");
    lemma_ascii_word("Set");
    lemma_ascii_word("SETEX");
    lemma_ascii_word("setex");
    lemma_ascii_word("SetEx");
    lemma_ascii_word("Setex");
    lemma_ascii_word("MSETNX");
    lemma_ascii_word("MSetnx");
    lemma_ascii_word("msetnx");
    lemma_ascii_word("SETNX");
    lemma_ascii_word("setnx");
    lemma_ascii_word("Setnx");
    lemma_ascii_word("EXPIRE");
    lemma_ascii_word("expire");
    lemma_ascii_word("Expire");
    lemma_ascii_word("PEXPIRE");
    lemma_ascii_word("Pexpire");
    lemma_ascii_word("PExpire");
    lemma_ascii_word("pexpire");
    lemma_ascii_word("GET");
    lemma_ascii_word("get");
    lemma_ascii_word("Get");
    lemma_ascii_word("GETSET");
    lemma_ascii_word("getset");
    lemma_ascii_word("Getset");
    lemma_ascii_word("GetSet");
    lemma_ascii_word("DEL");
    lemma_ascii_word("del");
    lemma_ascii_word("Del");
    lemma_ascii_word("INCR");
    lemma_ascii_word("incr");
    lemma_ascii_word("Incr");
    lemma_ascii_word("EXISTS");
    lemma_ascii_word("exists");
    lemma_ascii_word("Exists");
    lemma_ascii_word("INFO");
    lemma_ascii_word("info");
    lemma_ascii_word("Info");
    lemma_ascii_word("PING");
    lemma_ascii_word("ping");
    lemma_ascii_word("Ping");
    lemma_ascii_word("QUIT");
    lemma_ascii_word("quit");
    lemma_ascii_word("Quit");
}

/// Every command is known by its name in capital letters and by its name in
/// small letters.
pub proof fn names_in_upper_and_lower_case(name: Name)
    ensures
        name_of(upper_case(name)) == Some(name),
        name_of(lower_case(name)) == Some(name),
{
    a_spelling_names_its_command(name, upper_case(name));
    a_spelling_names_its_command(name, lower_case(name));
}

/// Two requests that name one command, each in any of its spellings, and
/// that agree from the second token on, are interpreted alike: as the same
/// command with the same contents, or as the same failure.
pub proof fn spellings_are_equivalent(name: Name, first: Seq<Token>, second: Seq<Token>, now: u64)
    requires
        first.len() > 0,
        second.len() > 0,
        first[0] matches Token::BulkString(word) && spelled_as(name, word),
        second[0] matches Token::BulkString(word) && spelled_as(name, word),
        first.subrange(1, first.len() as int) == second.subrange(1, second.len() as int),
    ensures
        parsed(first, now) == parsed(second, now),
{
    a_spelling_names_its_command(name, first[0]->BulkString_0);
    a_spelling_names_its_command(name, second[0]->BulkString_0);
    assert forall|i: int| 1 <= i < first.len() implies first[i] == second[i] by {
        assert(first[i] == first.subrange(1, first.len() as int)[i - 1]);
        assert(second[i] == second.subrange(1, second.len() as int)[i - 1]);
    }
}

/// A request that is empty, or whose first token is not a bulk string, is
/// invalid.
pub proof fn request_without_a_name_is_invalid(tokens: Seq<Token>, now: u64)
    requires
        tokens.len() == 0 || !(tokens[0] is BulkString),
    ensures
        parsed(tokens, now) == Err::<CommandView, Failure>(Failure::InvalidCommand),
{
}

/// The commands that take no argument ignore whatever follows their name.
pub proof fn bare_commands_ignore_arguments(tokens: Seq<Token>, now: u64)
    requires
        tokens.len() > 0,
        tokens[0] is BulkString,
    ensures
        name_of(tokens[0]->BulkString_0) == Some(Name::Info) ==> parsed(tokens, now) == Ok::<
            CommandView,
            Failure,
        >(CommandView::Info),
        name_of(tokens[0]->BulkString_0) == Some(Name::Ping) ==> parsed(tokens, now) == Ok::<
            CommandView,
            Failure,
        >(CommandView::Ping),
        name_of(tokens[0]->BulkString_0) == Some(Name::Quit) ==> parsed(tokens, now) == Ok::<
            CommandView,
            Failure,
        >(CommandView::Quit),
{
}

/// Once a command with a fixed number of arguments has them all, further
/// tokens change nothing.
pub proof fn surplus_tokens_are_ignored(tokens: Seq<Token>, surplus: Seq<Token>, now: u64)
    requires
        tokens.len() > 0,
        tokens[0] matches Token::BulkString(word) && name_of(word) matches Some(name)
            && arguments_taken(name) matches Some(taken) && tokens.len() > taken,
    ensures
        parsed(tokens + surplus, now) == parsed(tokens, now),
{
    let longer = tokens + surplus;
    assert forall|i: int| 0 <= i < tokens.len() implies longer[i] == tokens[i] by {}
}

/// The moment of interpretation matters only to a request for which a
/// deadline is computed.
pub proof fn only_a_deadline_depends_on_the_clock(tokens: Seq<Token>, now: u64, later: u64)
    requires
        !computes_deadline(tokens),
    ensures
        parsed(tokens, now) == parsed(tokens, later),
{
}

/// Where a deadline is computed, the moment of interpretation shows in the
/// result: two different moments give two different results, unless neither
/// deadline can be represented.
pub proof fn a_deadline_depends_on_the_clock(tokens: Seq<Token>, now: u64, later: u64)
    requires
        computes_deadline(tokens),
        now != later,
        parsed(tokens, now) is Ok || parsed(tokens, later) is Ok,
    ensures
        parsed(tokens, now) != parsed(tokens, later),
{
}

/// Interpreting one request twice gives equal results, provided that both
/// interpretations happen at the same moment or that no deadline is computed.
pub proof fn parsing_twice_agrees(
    tokens: Seq<Token>,
    now: u64,
    later: u64,
    first: Result<Command, RedisCommandError>,
    second: Result<Command, RedisCommandError>,
)
    requires
        outcome(first) == parsed(tokens, now),
        outcome(second) == parsed(tokens, later),
        now == later || !computes_deadline(tokens),
    ensures
        outcome(first) == outcome(second),
{
    if now != later {
        only_a_deadline_depends_on_the_clock(tokens, now, later);
    }
}

} // verus!
