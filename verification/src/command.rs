//! Typed commands, and the interpretation of a request as one of them.

use crate::decimal::{decimal_u64, parse_decimal};
use crate::expiry::{deadline_after_millis, deadline_after_secs, unix_millis, Expiry};
use crate::protocol::error::{Failure, RedisCommandError};
use crate::protocol::{Resp, Token};
use crate::text::{owned_text, same_bytes};
use vstd::prelude::*;
use vstd::slice::{slice_subrange, slice_to_vec};
use vstd::string::StringSliceAdditionalSpecFns;
use vstd::utf8::{decode_utf8, valid_utf8};

verus! {

/// A key: owned bytes, compared byte for byte.
pub type Key = Vec<u8>;

/// A value: owned bytes, of no particular encoding.
pub type Value = Vec<u8>;

/// Pairs of key and value, in the order in which the request gave them.
pub type Items = Vec<(Key, Value)>;

/// A request that has been understood. Each variant owns all it needs.
#[derive(Debug, PartialEq)]
pub enum Command {
    /// Write unconditionally: the command `SET`.
    SetKey(Key, Value),
    /// Write only if the key is absent.
    Setnx(Key, Value),
    /// Write with a time to live.
    Setex(Key, Expiry, Value),
    /// Write all pairs, only if none of the keys exists.
    MSetnx(Items),
    /// Attach a deadline, given in seconds, to a key.
    Expire(Key, Expiry),
    /// Attach a deadline, given in milliseconds, to a key.
    PExpire(Key, Expiry),
    /// Read.
    Get(Key),
    /// Read, then write.
    GetSet(Key, Value),
    /// Delete.
    Del(Key),
    /// Increment the number stored under a key.
    Incr(Key),
    /// Ask whether a key exists.
    Exists(Key),
    /// Ask about the server.
    Info,
    /// Ask whether the server is alive.
    Ping,
    /// Ask to end the connection.
    Quit,
}

/// The mathematical value of a [`Command`]: keys and values as byte
/// sequences, an expiry as its deadline in milliseconds since the Unix epoch.
pub enum CommandView {
    SetKey(Seq<u8>, Seq<u8>),
    Setnx(Seq<u8>, Seq<u8>),
    Setex(Seq<u8>, nat, Seq<u8>),
    MSetnx(Seq<(Seq<u8>, Seq<u8>)>),
    Expire(Seq<u8>, nat),
    PExpire(Seq<u8>, nat),
    Get(Seq<u8>),
    GetSet(Seq<u8>, Seq<u8>),
    Del(Seq<u8>),
    Incr(Seq<u8>),
    Exists(Seq<u8>),
    Info,
    Ping,
    Quit,
}

impl View for Command {
    type V = CommandView;

    open spec fn view(&self) -> CommandView {
        match self {
            Command::SetKey(key, value) => CommandView::SetKey(key@, value@),
            Command::Setnx(key, value) => CommandView::Setnx(key@, value@),
            Command::Setex(key, expiry, value) => CommandView::Setex(key@, expiry@, value@),
            Command::MSetnx(items) => CommandView::MSetnx(items.deep_view()),
            Command::Expire(key, expiry) => CommandView::Expire(key@, expiry@),
            Command::PExpire(key, expiry) => CommandView::PExpire(key@, expiry@),
            Command::Get(key) => CommandView::Get(key@),
            Command::GetSet(key, value) => CommandView::GetSet(key@, value@),
            Command::Del(key) => CommandView::Del(key@),
            Command::Incr(key) => CommandView::Incr(key@),
            Command::Exists(key) => CommandView::Exists(key@),
            Command::Info => CommandView::Info,
            Command::Ping => CommandView::Ping,
            Command::Quit => CommandView::Quit,
        }
    }
}

/// The mathematical value of what a fallible step gives back.
pub open spec fn outcome<T: View>(r: Result<T, RedisCommandError>) -> Result<T::V, Failure> {
    match r {
        Ok(value) => Ok(value@),
        Err(error) => Err(error@),
    }
}

/// The commands, by name.
#[derive(Debug, PartialEq, Eq, Clone, Copy)]
pub enum Name {
    SetKey,
    Setnx,
    Setex,
    MSetnx,
    Expire,
    PExpire,
    Get,
    GetSet,
    Del,
    Incr,
    Exists,
    Info,
    Ping,
    Quit,
}

/// Whether `word` is, byte for byte, the literal `spelling`.
pub open spec fn is_word(word: Seq<u8>, spelling: &str) -> bool {
    word == spelling.spec_bytes()
}

/// Whether `word` is one of the spellings under which the command `name` is
/// known. These are all there are: the comparison is by bytes, case included.
pub open spec fn spelled_as(name: Name, word: Seq<u8>) -> bool {
    match name {
        Name::SetKey => is_word(word, "SET") || is_word(word, "set") || is_word(word, "Set"),
        Name::Setex => is_word(word, "SETEX") || is_word(word, "setex") || is_word(word, "SetEx")
            || is_word(word, "Setex"),
        Name::MSetnx => is_word(word, "MSETNX") || is_word(word, "MSetnx") || is_word(
            word,
            "msetnx",
        ),
        Name::Setnx => is_word(word, "SETNX") || is_word(word, "setnx") || is_word(word, "Setnx"),
        Name::Expire => is_word(word, "EXPIRE") || is_word(word, "expire") || is_word(
            word,
            "Expire",
        ),
        Name::PExpire => is_word(word, "PEXPIRE") || is_word(word, "Pexpire") || is_word(
            word,
            "PExpire",
        ) || is_word(word, "pexpire"),
        Name::Get => is_word(word, "GET") || is_word(word, "get") || is_word(word, "Get"),
        Name::GetSet => is_word(word, "GETSET") || is_word(word, "getset") || is_word(
            word,
            "Getset",
        ) || is_word(word, "GetSet"),
        Name::Del => is_word(word, "DEL") || is_word(word, "del") || is_word(word, "Del"),
        Name::Incr => is_word(word, "INCR") || is_word(word, "incr") || is_word(word, "Incr"),
        Name::Exists => is_word(word, "EXISTS") || is_word(word, "exists") || is_word(
            word,
            "Exists",
        ),
        Name::Info => is_word(word, "INFO") || is_word(word, "info") || is_word(word, "Info"),
        Name::Ping => is_word(word, "PING") || is_word(word, "ping") || is_word(word, "Ping"),
        Name::Quit => is_word(word, "QUIT") || is_word(word, "quit") || is_word(word, "Quit"),
    }
}

/// The command that `word` names, if it names one.
pub open spec fn name_of(word: Seq<u8>) -> Option<Name> {
    if spelled_as(Name::SetKey, word) {
        Some(Name::SetKey)
    } else if spelled_as(Name::Setex, word) {
        Some(Name::Setex)
    } else if spelled_as(Name::MSetnx, word) {
        Some(Name::MSetnx)
    } else if spelled_as(Name::Setnx, word) {
        Some(Name::Setnx)
    } else if spelled_as(Name::Expire, word) {
        Some(Name::Expire)
    } else if spelled_as(Name::PExpire, word) {
        Some(Name::PExpire)
    } else if spelled_as(Name::Get, word) {
        Some(Name::Get)
    } else if spelled_as(Name::GetSet, word) {
        Some(Name::GetSet)
    } else if spelled_as(Name::Del, word) {
        Some(Name::Del)
    } else if spelled_as(Name::Incr, word) {
        Some(Name::Incr)
    } else if spelled_as(Name::Exists, word) {
        Some(Name::Exists)
    } else if spelled_as(Name::Info, word) {
        Some(Name::Info)
    } else if spelled_as(Name::Ping, word) {
        Some(Name::Ping)
    } else if spelled_as(Name::Quit, word) {
        Some(Name::Quit)
    } else {
        None
    }
}

/// Whether `word` is the literal `spelling`.
fn spelled(word: &[u8], spelling: &str) -> (yes: bool)
    ensures
        yes == is_word(word@, spelling),
{
    same_bytes(word, spelling.as_bytes())
}

/// Looks a command name up.
pub fn recognize(word: &[u8]) -> (name: Option<Name>)
    ensures
        name == name_of(word@),
{
    if spelled(word, "SET") || spelled(word, "set") || spelled(word, "Set") {
        Some(Name::SetKey)
    } else if spelled(word, "SETEX") || spelled(word, "setex") || spelled(word, "SetEx")
        || spelled(word, "Setex") {
        Some(Name::Setex)
    } else if spelled(word, "MSETNX") || spelled(word, "MSetnx") || spelled(word, "msetnx") {
        Some(Name::MSetnx)
    } else if spelled(word, "SETNX") || spelled(word, "setnx") || spelled(word, "Setnx") {
        Some(Name::Setnx)
    } else if spelled(word, "EXPIRE") || spelled(word, "expire") || spelled(word, "Expire") {
        Some(Name::Expire)
    } else if spelled(word, "PEXPIRE") || spelled(word, "Pexpire") || spelled(word, "PExpire")
        || spelled(word, "pexpire") {
        Some(Name::PExpire)
    } else if spelled(word, "GET") || spelled(word, "get") || spelled(word, "Get") {
        Some(Name::Get)
    } else if spelled(word, "GETSET") || spelled(word, "getset") || spelled(word, "Getset")
        || spelled(word, "GetSet") {
        Some(Name::GetSet)
    } else if spelled(word, "DEL") || spelled(word, "del") || spelled(word, "Del") {
        Some(Name::Del)
    } else if spelled(word, "INCR") || spelled(word, "incr") || spelled(word, "Incr") {
        Some(Name::Incr)
    } else if spelled(word, "EXISTS") || spelled(word, "exists") || spelled(word, "Exists") {
        Some(Name::Exists)
    } else if spelled(word, "INFO") || spelled(word, "info") || spelled(word, "Info") {
        Some(Name::Info)
    } else if spelled(word, "PING") || spelled(word, "ping") || spelled(word, "Ping") {
        Some(Name::Ping)
    } else if spelled(word, "QUIT") || spelled(word, "quit") || spelled(word, "Quit") {
        Some(Name::Quit)
    } else {
        None
    }
}

/// The bytes that a token gives as an argument: those of a simple or bulk
/// string. A missing token, or one of another kind, is a wrong number of
/// arguments.
pub open spec fn argument_of(token: Option<Token>) -> Result<Seq<u8>, Failure> {
    match token {
        Some(token) => match token.text() {
            Some(bytes) => Ok(bytes),
            None => Err(Failure::ArgNumber),
        },
        None => Err(Failure::ArgNumber),
    }
}

/// The argument at position `i` of a request.
pub open spec fn argument(tokens: Seq<Token>, i: int) -> Result<Seq<u8>, Failure> {
    argument_of(
        if 0 <= i < tokens.len() {
            Some(tokens[i])
        } else {
            None
        },
    )
}

/// The duration that `bytes` write: they must be well-formed UTF-8, and the
/// text a base-10 unsigned integer of 64 bits.
pub open spec fn duration_of(bytes: Seq<u8>) -> Result<u64, Failure> {
    if !valid_utf8(bytes) {
        Err(Failure::BadString)
    } else {
        match decimal_u64(bytes) {
            Some(duration) => Ok(duration),
            None => Err(Failure::IntParse),
        }
    }
}

/// Copies the bytes of an argument out of its token.
pub fn get_bytes_vec(resp: Option<&Resp>) -> (bytes: Result<Vec<u8>, RedisCommandError>)
    ensures
        outcome(bytes) == argument_of(resp.deep_view()),
{
    match resp {
        Some(Resp::String(x)) => Ok(slice_to_vec(x)),
        Some(Resp::BulkString(x)) => Ok(slice_to_vec(x)),
        _ => Err(RedisCommandError::ArgNumber),
    }
}

/// Reads a duration: UTF-8 text that writes an unsigned integer in base 10.
pub fn parse_duration(bytes: Vec<u8>) -> (duration: Result<u64, RedisCommandError>)
    ensures
        outcome(duration) == duration_of(bytes@),
{
    match core::str::from_utf8(bytes.as_slice()) {
        Ok(text) => match parse_decimal(text.as_bytes()) {
            Some(duration) => Ok(duration),
            None => Err(RedisCommandError::IntParse),
        },
        Err(_) => Err(RedisCommandError::BadString),
    }
}

/// The arguments at positions 1 and 2 of a request: a key, then a value.
pub open spec fn key_and_value(tokens: Seq<Token>) -> Result<(Seq<u8>, Seq<u8>), Failure> {
    match argument(tokens, 1) {
        Err(failure) => Err(failure),
        Ok(key) => match argument(tokens, 2) {
            Err(failure) => Err(failure),
            Ok(value) => Ok((key, value)),
        },
    }
}

/// The arguments at positions 1 and 2 of a request: a key, then a duration.
/// A missing duration is reported before a malformed one is looked at.
pub open spec fn key_and_duration(tokens: Seq<Token>) -> Result<(Seq<u8>, u64), Failure> {
    match argument(tokens, 1) {
        Err(failure) => Err(failure),
        Ok(key) => match argument(tokens, 2) {
            Err(failure) => Err(failure),
            Ok(bytes) => match duration_of(bytes) {
                Err(failure) => Err(failure),
                Ok(duration) => Ok((key, duration)),
            },
        },
    }
}

/// A flat list of arguments read as pairs of key and value, in order. The
/// list must have even length and hold only string tokens; the empty list
/// gives no pairs.
pub open spec fn pairs(args: Seq<Token>) -> Result<Seq<(Seq<u8>, Seq<u8>)>, Failure> {
    if args.len() % 2 == 0 && forall|i: int|
        0 <= i < args.len() ==> (#[trigger] args[i]).text() is Some {
        Ok(
            Seq::new(
                args.len() / 2,
                |i: int| (args[2 * i].text()->0, args[2 * i + 1].text()->0),
            ),
        )
    } else {
        Err(Failure::ArgNumber)
    }
}

/// What the arguments of a request make of the command `name`, at the moment
/// `now` (milliseconds since the Unix epoch). Arguments are taken by
/// position, and the first that fails decides the error. Tokens beyond those
/// that a command takes are ignored.
pub open spec fn interpret(name: Name, tokens: Seq<Token>, now: u64) -> Result<
    CommandView,
    Failure,
> {
    match name {
        Name::SetKey => match key_and_value(tokens) {
            Ok((key, value)) => Ok(CommandView::SetKey(key, value)),
            Err(failure) => Err(failure),
        },
        Name::Setnx => match key_and_value(tokens) {
            Ok((key, value)) => Ok(CommandView::Setnx(key, value)),
            Err(failure) => Err(failure),
        },
        Name::Setex => match key_and_duration(tokens) {
            Err(failure) => Err(failure),
            Ok((key, secs)) => match argument(tokens, 3) {
                Err(failure) => Err(failure),
                Ok(value) => match deadline_after_secs(now, secs) {
                    Some(deadline) => Ok(CommandView::Setex(key, deadline, value)),
                    None => Err(Failure::TimeOverflow),
                },
            },
        },
        Name::MSetnx => match pairs(tokens.subrange(1, tokens.len() as int)) {
            Ok(items) => Ok(CommandView::MSetnx(items)),
            Err(failure) => Err(failure),
        },
        Name::Expire => match key_and_duration(tokens) {
            Err(failure) => Err(failure),
            Ok((key, secs)) => match deadline_after_secs(now, secs) {
                Some(deadline) => Ok(CommandView::Expire(key, deadline)),
                None => Err(Failure::TimeOverflow),
            },
        },
        Name::PExpire => match key_and_duration(tokens) {
            Err(failure) => Err(failure),
            Ok((key, millis)) => match deadline_after_millis(now, millis) {
                Some(deadline) => Ok(CommandView::PExpire(key, deadline)),
                None => Err(Failure::TimeOverflow),
            },
        },
        Name::Get => match argument(tokens, 1) {
            Ok(key) => Ok(CommandView::Get(key)),
            Err(failure) => Err(failure),
        },
        Name::GetSet => match key_and_value(tokens) {
            Ok((key, value)) => Ok(CommandView::GetSet(key, value)),
            Err(failure) => Err(failure),
        },
        Name::Del => match argument(tokens, 1) {
            Ok(key) => Ok(CommandView::Del(key)),
            Err(failure) => Err(failure),
        },
        Name::Incr => match argument(tokens, 1) {
            Ok(key) => Ok(CommandView::Incr(key)),
            Err(failure) => Err(failure),
        },
        Name::Exists => match argument(tokens, 1) {
            Ok(key) => Ok(CommandView::Exists(key)),
            Err(failure) => Err(failure),
        },
        Name::Info => Ok(CommandView::Info),
        Name::Ping => Ok(CommandView::Ping),
        Name::Quit => Ok(CommandView::Quit),
    }
}

/// How many arguments the command `name` takes by position. The list of
/// pairs of `MSetnx` has no fixed length.
pub open spec fn arguments_taken(name: Name) -> Option<nat> {
    match name {
        Name::SetKey | Name::Setnx | Name::GetSet | Name::Expire | Name::PExpire => Some(2),
        Name::Setex => Some(3),
        Name::MSetnx => None,
        Name::Get | Name::Del | Name::Incr | Name::Exists => Some(1),
        Name::Info | Name::Ping | Name::Quit => Some(0),
    }
}

/// Whether interpreting the request comes as far as computing a deadline:
/// only then does the moment of interpretation matter.
pub open spec fn computes_deadline(tokens: Seq<Token>) -> bool {
    tokens.len() > 0 && tokens[0] is BulkString && match name_of(tokens[0]->BulkString_0) {
        Some(Name::Setex) => key_and_duration(tokens) is Ok && argument(tokens, 3) is Ok,
        Some(Name::Expire) => key_and_duration(tokens) is Ok,
        Some(Name::PExpire) => key_and_duration(tokens) is Ok,
        _ => false,
    }
}

/// The command that a request is at the moment `now`, or why it is none.
///
/// The first token must be a bulk string, or the request is invalid. Its
/// bytes name the command. A name that is not known is reported as text,
/// which requires it to be well-formed UTF-8.
pub open spec fn parsed(tokens: Seq<Token>, now: u64) -> Result<CommandView, Failure> {
    if tokens.len() > 0 && tokens[0] is BulkString {
        let word = tokens[0]->BulkString_0;
        match name_of(word) {
            Some(name) => interpret(name, tokens, now),
            None => if valid_utf8(word) {
                Err(Failure::NotSupported(decode_utf8(word)))
            } else {
                Err(Failure::BadString)
            },
        }
    } else {
        Err(Failure::InvalidCommand)
    }
}

/// The mathematical value of what reading a list of pairs gives back.
pub open spec fn pairs_outcome(r: Result<Items, RedisCommandError>) -> Result<
    Seq<(Seq<u8>, Seq<u8>)>,
    Failure,
> {
    match r {
        Ok(items) => Ok(items.deep_view()),
        Err(error) => Err(error@),
    }
}

/// Reads a flat list of arguments as pairs of key and value.
pub fn read_pairs(args: &[Resp]) -> (items: Result<Items, RedisCommandError>)
    ensures
        pairs_outcome(items) == pairs(args.deep_view()),
{
    let ghost tokens = args.deep_view();
    let mut items: Items = Vec::new();
    let mut i: usize = 0;
    while i < args.len()
        invariant
            tokens == args.deep_view(),
            i <= args@.len(),
            i % 2 == 0,
            forall|j: int| 0 <= j < i ==> (#[trigger] tokens[j]).text() is Some,
            items.deep_view().len() == i / 2,
            forall|k: int|
                0 <= k < i / 2 ==> #[trigger] items.deep_view()[k] == (
                    tokens[2 * k].text()->0,
                    tokens[2 * k + 1].text()->0,
                ),
        decreases args@.len() - i,
    {
        if args.len() - i < 2 {
            return Err(RedisCommandError::ArgNumber);
        }
        let key = match get_bytes_vec(args.get(i)) {
            Ok(bytes) => bytes,
            Err(error) => {
                assert(tokens[i as int].text() is None);
                return Err(error);
            },
        };
        let value = match get_bytes_vec(args.get(i + 1)) {
            Ok(bytes) => bytes,
            Err(error) => {
                assert(tokens[i + 1].text() is None);
                return Err(error);
            },
        };
        let ghost before = items.deep_view();
        assert(key.deep_view() =~= key@);
        assert(value.deep_view() =~= value@);
        items.push((key, value));
        assert(items.deep_view() =~= before.push((key@, value@)));
        i += 2;
    }
    assert(items.deep_view() =~= pairs(tokens)->Ok_0);
    Ok(items)
}

impl Command {
    /// Interprets a request at the present moment, whatever the clock says
    /// that moment is. Only a command that carries an expiry depends on it.
    pub fn parse(v: Vec<Resp>) -> (command: Result<Self, RedisCommandError>)
        ensures
            exists|now: u64| outcome(command) == #[trigger] parsed(v.deep_view(), now),
    {
        let now: u64 = unix_millis();
        Self::parse_at(v, now)
    }

    /// Interprets a request at the moment `now`, given in milliseconds since
    /// the Unix epoch.
    pub fn parse_at(v: Vec<Resp>, now: u64) -> (command: Result<Self, RedisCommandError>)
        ensures
            outcome(command) == parsed(v.deep_view(), now),
    {
        let tokens = v.as_slice();
        match tokens.first() {
            Some(Resp::BulkString(command)) => match recognize(command) {
                Some(Name::SetKey) => {
                    let key = get_bytes_vec(tokens.get(1))?;
                    let value = get_bytes_vec(tokens.get(2))?;

                    Ok(Command::SetKey(key, value))
                },
                Some(Name::Setex) => {
                    let key = get_bytes_vec(tokens.get(1))?;
                    let duration = parse_duration(get_bytes_vec(tokens.get(2))?)?;
                    let value = get_bytes_vec(tokens.get(3))?;
                    match Expiry::from_secs_at(now, duration) {
                        Ok(expiry) => Ok(Command::Setex(key, expiry, value)),
                        Err(_) => Err(RedisCommandError::TimeOverflow),
                    }
                },
                Some(Name::MSetnx) => {
                    let request = slice_subrange(tokens, 1, tokens.len());
                    assert(request.deep_view() =~= v.deep_view().subrange(1, v@.len() as int));
                    let items = read_pairs(request)?;

                    Ok(Command::MSetnx(items))
                },
                Some(Name::Setnx) => {
                    let key = get_bytes_vec(tokens.get(1))?;
                    let value = get_bytes_vec(tokens.get(2))?;

                    Ok(Command::Setnx(key, value))
                },
                Some(Name::Expire) => {
                    let key = get_bytes_vec(tokens.get(1))?;
                    let duration = parse_duration(get_bytes_vec(tokens.get(2))?)?;
                    match Expiry::from_secs_at(now, duration) {
                        Ok(expiry) => Ok(Command::Expire(key, expiry)),
                        Err(_) => Err(RedisCommandError::TimeOverflow),
                    }
                },
                Some(Name::PExpire) => {
                    let key = get_bytes_vec(tokens.get(1))?;
                    let duration = parse_duration(get_bytes_vec(tokens.get(2))?)?;
                    match Expiry::from_millis_at(now, duration) {
                        Ok(expiry) => Ok(Command::PExpire(key, expiry)),
                        Err(_) => Err(RedisCommandError::TimeOverflow),
                    }
                },
                Some(Name::Get) => {
                    let key = get_bytes_vec(tokens.get(1))?;
                    Ok(Command::Get(key))
                },
                Some(Name::GetSet) => {
                    let key = get_bytes_vec(tokens.get(1))?;
                    let value = get_bytes_vec(tokens.get(2))?;

                    Ok(Command::GetSet(key, value))
                },
                Some(Name::Del) => {
                    let key = get_bytes_vec(tokens.get(1))?;
                    Ok(Command::Del(key))
                },
                Some(Name::Incr) => {
                    let key = get_bytes_vec(tokens.get(1))?;
                    Ok(Command::Incr(key))
                },
                Some(Name::Exists) => {
                    let key = get_bytes_vec(tokens.get(1))?;
                    Ok(Command::Exists(key))
                },
                Some(Name::Info) => Ok(Command::Info),
                Some(Name::Ping) => Ok(Command::Ping),
                Some(Name::Quit) => Ok(Command::Quit),
                None => match owned_text(command) {
                    Some(name) => Err(RedisCommandError::NotSupported(name)),
                    None => Err(RedisCommandError::BadString),
                },
            },
            _ => Err(RedisCommandError::InvalidCommand),
        }
    }
}

} // verus!
