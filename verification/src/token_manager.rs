use vstd::prelude::*;

use crate::config::default_config;
use crate::error::AppError;
use crate::text::{push_char, to_char_vec};

verus! {

/// The credential as it is persisted: the access token and nothing else.
#[derive(Debug, Clone, PartialEq, Eq)]
pub struct TokenData {
    pub access_token: String,
}

/// The escape of one character inside the stored value: quotes and
/// backslashes are prefixed with a backslash, everything else is itself.
pub open spec fn esc_char(c: char) -> Seq<char> {
    if c == '"' || c == '\\' {
        seq!['\\', c]
    } else {
        seq![c]
    }
}

/// The escape of a whole token.
pub open spec fn escape(s: Seq<char>) -> Seq<char>
    decreases s.len(),
{
    if s.len() == 0 {
        Seq::empty()
    } else {
        esc_char(s[0]) + escape(s.drop_first())
    }
}

pub proof fn lemma_escape_append_char(s: Seq<char>, c: char)
    ensures
        escape(s.push(c)) == escape(s) + esc_char(c),
    decreases s.len(),
{
    if s.len() == 0 {
        assert(s.push(c)[0] == c);
        assert(s.push(c).drop_first() =~= Seq::<char>::empty());
        assert(escape(Seq::<char>::empty()) == Seq::<char>::empty());
        assert(escape(s.push(c)) == esc_char(c) + Seq::<char>::empty());
        assert(escape(s.push(c)) =~= escape(s) + esc_char(c));
    } else {
        lemma_escape_append_char(s.drop_first(), c);
        assert(s.push(c)[0] == s[0]);
        assert(s.push(c).drop_first() =~= s.drop_first().push(c));
        assert(escape(s.push(c)) =~= escape(s) + esc_char(c));
    }
}

/// The opening frame of the stored value.
pub open spec fn frame_prefix() -> Seq<char> {
    seq!['{', '"', 'a', 'c', 'c', 'e', 's', 's', '_', 't', 'o', 'k', 'e', 'n', '"', ':', '"']
}

/// The closing frame of the stored value.
pub open spec fn frame_suffix() -> Seq<char> {
    seq!['"', '}']
}

/// The serialized credential: a JSON-style object with the single
/// `access_token` field, its value escaped as `esc_char` says.
pub open spec fn token_json(token: Seq<char>) -> Seq<char> {
    frame_prefix() + escape(token) + frame_suffix()
}

/// The inverse of `escape`: rejects stray quotes and incomplete or unknown
/// escapes.
pub open spec fn unescape(m: Seq<char>) -> Option<Seq<char>>
    decreases m.len(),
{
    if m.len() == 0 {
        Some(Seq::empty())
    } else if m[0] == '\\' {
        if m.len() >= 2 && (m[1] == '"' || m[1] == '\\') {
            match unescape(m.skip(2)) {
                Some(rest) => Some(seq![m[1]] + rest),
                None => None,
            }
        } else {
            None
        }
    } else if m[0] == '"' {
        None
    } else {
        match unescape(m.drop_first()) {
            Some(rest) => Some(seq![m[0]] + rest),
            None => None,
        }
    }
}

/// The token a serialized credential holds, if the text is well-formed.
pub open spec fn parse_token_json(s: Seq<char>) -> Option<Seq<char>> {
    if s.len() >= 19 && s.take(17) == frame_prefix() && s.skip(s.len() - 2) == frame_suffix() {
        unescape(s.subrange(17, s.len() - 2))
    } else {
        None
    }
}

pub proof fn lemma_unescape_escape(t: Seq<char>)
    ensures
        unescape(escape(t)) == Some(t),
    decreases t.len(),
{
    if t.len() == 0 {
    } else {
        lemma_unescape_escape(t.drop_first());
        if t[0] == '"' || t[0] == '\\' {
            assert(escape(t) == seq!['\\', t[0]] + escape(t.drop_first()));
            assert(escape(t).skip(2) =~= escape(t.drop_first()));
            assert(seq![t[0]] + t.drop_first() =~= t);
        } else {
            assert(escape(t) == seq![t[0]] + escape(t.drop_first()));
            assert(escape(t).drop_first() =~= escape(t.drop_first()));
            assert(seq![t[0]] + t.drop_first() =~= t);
        }
    }
}

/// Serializing a credential and parsing it back yields the same token,
/// whatever characters the token holds.
pub proof fn lemma_token_json_round_trip(t: Seq<char>)
    ensures
        parse_token_json(token_json(t)) == Some(t),
{
    let s = token_json(t);
    assert(s.len() >= 19);
    assert(s.take(17) =~= frame_prefix());
    assert(s.skip(s.len() - 2) =~= frame_suffix());
    assert(s.subrange(17, s.len() - 2) =~= escape(t));
    lemma_unescape_escape(t);
}

/// Serializes the credential for the vault.
pub fn encode_token(token: &str) -> (r: String)
    ensures
        r@ == token_json(token@),
{
    let chars = to_char_vec(token);
    let mut out = String::from_str("{\"access_token\":\"");
    proof {
        reveal_strlit("{\"access_token\":\"");
        assert(out@ =~= frame_prefix());
        assert(token@.take(0) =~= Seq::<char>::empty());
        assert(out@ =~= frame_prefix() + escape(token@.take(0)));
    }
    let mut i: usize = 0;
    while i < chars.len()
        invariant
            i <= chars.len(),
            chars@ == token@,
            out@ == frame_prefix() + escape(token@.take(i as int)),
        decreases chars.len() - i,
    {
        let c = chars[i];
        if c == '"' || c == '\\' {
            push_char(&mut out, '\\');
        }
        push_char(&mut out, c);
        proof {
            lemma_escape_append_char(token@.take(i as int), token@[i as int]);
            assert(token@.take(i + 1) =~= token@.take(i as int).push(token@[i as int]));
            assert(out@ =~= frame_prefix() + escape(token@.take(i + 1)));
        }
        i = i + 1;
    }
    out.append("\"}");
    proof {
        reveal_strlit("\"}");
        assert(token@.take(chars.len() as int) =~= token@);
        assert(out@ =~= token_json(token@));
    }
    out
}

/// `rest` prefixed with `p`, if `rest` parsed at all.
pub open spec fn opt_prepend(p: Seq<char>, rest: Option<Seq<char>>) -> Option<Seq<char>> {
    match rest {
        Some(r) => Some(p + r),
        None => None,
    }
}

/// Parses a serialized credential back into its token; `None` for any text
/// that `token_json` cannot have produced.
pub fn decode_token(s: &str) -> (r: Option<String>)
    ensures
        match parse_token_json(s@) {
            Some(t) => r matches Some(v) && v@ == t,
            None => r is None,
        },
{
    let v = to_char_vec(s);
    if v.len() < 19 {
        return None;
    }
    let prefix = frame_prefix_chars();
    let mut i: usize = 0;
    while i < 17
        invariant
            i <= 17,
            v@ == s@,
            v@.len() >= 19,
            prefix@ == frame_prefix(),
            forall|k: int| 0 <= k < i ==> v@[k] == frame_prefix()[k],
        decreases 17 - i,
    {
        if v[i] != prefix[i] {
            proof {
                assert(s@.take(17)[i as int] != frame_prefix()[i as int]);
            }
            return None;
        }
        i = i + 1;
    }
    proof {
        assert(s@.take(17) =~= frame_prefix());
    }
    let last = v.len() - 1;
    if v[last - 1] != '"' || v[last] != '}' {
        proof {
            if v@[last - 1] != '"' {
                assert(s@.skip(s@.len() - 2)[0] != frame_suffix()[0]);
            } else {
                assert(s@.skip(s@.len() - 2)[1] != frame_suffix()[1]);
            }
        }
        return None;
    }
    proof {
        assert(s@.skip(s@.len() - 2) =~= frame_suffix());
    }
    let ghost mid = s@.subrange(17, s@.len() - 2);
    let end = v.len() - 2;
    let mut out = String::new();
    let mut j: usize = 17;
    proof {
        assert(mid.skip(0) =~= mid);
        assert(opt_prepend(out@, unescape(mid)) == unescape(mid));
    }
    while j < end
        invariant
            17 <= j <= end,
            end == v@.len() - 2,
            v@ == s@,
            v@.len() >= 19,
            mid == s@.subrange(17, s@.len() - 2),
            opt_prepend(out@, unescape(mid.skip(j - 17))) == unescape(mid),
        decreases end - j,
    {
        let ghost rest = mid.skip(j - 17);
        proof {
            assert(rest.len() == end - j);
            assert(rest[0] == v@[j as int]);
        }
        let c = v[j];
        if c == '\\' {
            if j + 1 < end {
                let nxt = v[j + 1];
                proof {
                    assert(rest[1] == v@[j + 1]);
                }
                if nxt == '"' || nxt == '\\' {
                    let ghost out0 = out@;
                    push_char(&mut out, nxt);
                    proof {
                        assert(rest.skip(2) =~= mid.skip(j + 2 - 17));
                        assert(unescape(rest) == opt_prepend(
                            seq![rest[1]],
                            unescape(mid.skip(j + 2 - 17)),
                        ));
                        match unescape(mid.skip(j + 2 - 17)) {
                            Some(tail) => {
                                assert(out0 + (seq![nxt] + tail) =~= out@ + tail);
                            },
                            None => {},
                        }
                        assert(opt_prepend(out@, unescape(mid.skip(j + 2 - 17))) == unescape(mid));
                    }
                    j = j + 2;
                } else {
                    proof {
                        assert(unescape(rest) is None);
                    }
                    return None;
                }
            } else {
                proof {
                    assert(rest.len() == 1);
                    assert(unescape(rest) is None);
                }
                return None;
            }
        } else if c == '"' {
            proof {
                assert(unescape(rest) is None);
            }
            return None;
        } else {
            let ghost out0 = out@;
            push_char(&mut out, c);
            proof {
                assert(rest.drop_first() =~= mid.skip(j + 1 - 17));
                assert(unescape(rest) == opt_prepend(
                    seq![rest[0]],
                    unescape(mid.skip(j + 1 - 17)),
                ));
                match unescape(mid.skip(j + 1 - 17)) {
                    Some(tail) => {
                        assert(out0 + (seq![c] + tail) =~= out@ + tail);
                    },
                    None => {},
                }
                assert(opt_prepend(out@, unescape(mid.skip(j + 1 - 17))) == unescape(mid));
            }
            j = j + 1;
        }
    }
    proof {
        assert(mid.skip(end - 17) =~= Seq::<char>::empty());
        assert(unescape(mid) == Some(out@));
        assert(parse_token_json(s@) == Some(out@));
    }
    Some(out)
}

/// The keyring entry handle addressing one vault slot.
#[verifier::external_type_specification]
#[verifier::external_body]
pub struct ExEntry(keyring::Entry);

/// Outcome of one read of the vault slot, as plain values.
#[derive(Debug, Clone, PartialEq, Eq)]
pub enum VaultRead {
    /// The slot holds this serialized value.
    Value(String),
    /// The slot has never been written, or was cleared.
    Absent,
    /// The store could not be reached or refused the read.
    Failure(String),
}

/// Outcome of one deletion of the vault slot, as plain values.
#[derive(Debug, Clone, PartialEq, Eq)]
pub enum VaultDelete {
    /// The slot existed and is now gone.
    Deleted,
    /// The slot was already absent.
    Absent,
    /// The store could not be reached or refused the deletion.
    Failure(String),
}

/// Relies on keyring::Entry::new: builds the handle for this service/user
/// pair in the platform's default credential store.
#[verifier::external_body]
fn vault_entry(service: &str, user: &str) -> (r: Result<keyring::Entry, String>) {
    match keyring::Entry::new(service, user) {
        Ok(entry) => Ok(entry),
        Err(e) => Err(e.to_string()),
    }
}

/// Relies on keyring::Entry::set_password: writes the serialized value to
/// the platform store; what the store then holds belongs to the platform,
/// so only success or failure is visible here.
#[verifier::external_body]
fn vault_set(entry: &keyring::Entry, value: &str) -> (r: Result<(), String>) {
    match entry.set_password(value) {
        Ok(()) => Ok(()),
        Err(e) => Err(e.to_string()),
    }
}

/// Relies on keyring::Entry::get_password and keyring::Error::NoEntry: a
/// missing entry is reported as absent, distinct from a store failure.
#[verifier::external_body]
fn vault_get(entry: &keyring::Entry) -> (r: VaultRead) {
    match entry.get_password() {
        Ok(value) => VaultRead::Value(value),
        Err(keyring::Error::NoEntry) => VaultRead::Absent,
        Err(e) => VaultRead::Failure(e.to_string()),
    }
}

/// Relies on keyring::Entry::delete_credential and keyring::Error::NoEntry:
/// deleting a missing entry is reported as absent, distinct from a store
/// failure.
#[verifier::external_body]
fn vault_delete(entry: &keyring::Entry) -> (r: VaultDelete) {
    match entry.delete_credential() {
        Ok(()) => VaultDelete::Deleted,
        Err(keyring::Error::NoEntry) => VaultDelete::Absent,
        Err(e) => VaultDelete::Failure(e.to_string()),
    }
}

/// What a load returns for each possible state of the vault slot: a held
/// value is parsed back into the credential (a malformed one is a storage
/// error, never treated as "not authenticated"); an absent slot is the
/// normal `None`; a store failure is surfaced as `StorageError`.
pub fn interpret_vault_read(read: VaultRead) -> (r: Result<Option<TokenData>, AppError>)
    ensures
        (read matches VaultRead::Value(raw) ==> match parse_token_json(raw@) {
            Some(t) => (r matches Ok(o) && o matches Some(td) && td.access_token@ == t),
            None => (r matches Err(e) && e matches AppError::StorageError(m) && m@
                == "stored credential is malformed"@),
        }),
        (read is Absent ==> r == Ok::<Option<TokenData>, AppError>(None)),
        (read matches VaultRead::Failure(m) ==> r == Err::<Option<TokenData>, AppError>(
            AppError::StorageError(m),
        )),
{
    match read {
        VaultRead::Value(raw) => match decode_token(raw.as_str()) {
            Some(access_token) => Ok(Some(TokenData { access_token })),
            None => Err(AppError::StorageError(String::from_str("stored credential is malformed"))),
        },
        VaultRead::Absent => Ok(None),
        VaultRead::Failure(m) => Err(AppError::StorageError(m)),
    }
}

/// What a clear returns for each possible state of the vault slot: both a
/// deletion and an already-absent slot succeed, so logout is idempotent;
/// only a store failure is an error.
pub fn interpret_vault_delete(outcome: VaultDelete) -> (r: Result<(), AppError>)
    ensures
        (outcome is Deleted ==> r == Ok::<(), AppError>(())),
        (outcome is Absent ==> r == Ok::<(), AppError>(())),
        (outcome matches VaultDelete::Failure(m) ==> r == Err::<(), AppError>(
            AppError::StorageError(m),
        )),
{
    match outcome {
        VaultDelete::Deleted => Ok(()),
        VaultDelete::Absent => Ok(()),
        VaultDelete::Failure(m) => Err(AppError::StorageError(m)),
    }
}

/// Persists, retrieves and clears the credential in the platform's secure
/// store, addressed by the application's fixed service name and account
/// key: one stored credential slot per OS user account.
pub struct TokenManager {
    entry: keyring::Entry,
}

impl TokenManager {
    /// A manager for the application's fixed vault slot.
    pub fn new() -> (r: Result<TokenManager, AppError>)
        ensures
            (r matches Err(e) ==> e is StorageError),
    {
        let config = default_config();
        match vault_entry(config.service_name.as_str(), config.token_key.as_str()) {
            Ok(entry) => Ok(TokenManager { entry }),
            Err(m) => Err(AppError::StorageError(m)),
        }
    }

    /// Serializes the credential and writes it to the vault slot; fails
    /// only with `StorageError`.
    pub fn store_token(&self, access_token: &str) -> (r: Result<(), AppError>)
        ensures
            (r matches Err(e) ==> e is StorageError),
    {
        let serialized = encode_token(access_token);
        match vault_set(&self.entry, serialized.as_str()) {
            Ok(()) => Ok(()),
            Err(m) => Err(AppError::StorageError(m)),
        }
    }

    /// Reads the vault slot: `Ok(None)` when nothing was ever stored (a
    /// normal state, not a failure), the parsed credential when the slot
    /// holds one, `StorageError` when the store fails or the slot holds
    /// text the serializer cannot have produced.
    pub fn get_token(&self) -> (r: Result<Option<TokenData>, AppError>)
        ensures
            (r matches Err(e) ==> e is StorageError),
    {
        interpret_vault_read(vault_get(&self.entry))
    }

    /// Clears the vault slot; clearing an already-absent slot succeeds, so
    /// logout is idempotent.
    pub fn clear_token(&self) -> (r: Result<(), AppError>)
        ensures
            (r matches Err(e) ==> e is StorageError),
    {
        interpret_vault_delete(vault_delete(&self.entry))
    }
}

/// The opening frame as runtime characters.
fn frame_prefix_chars() -> (v: Vec<char>)
    ensures
        v@ == frame_prefix(),
{
    let mut v: Vec<char> = Vec::new();
    v.push('{');
    v.push('"');
    v.push('a');
    v.push('c');
    v.push('c');
    v.push('e');
    v.push('s');
    v.push('s');
    v.push('_');
    v.push('t');
    v.push('o');
    v.push('k');
    v.push('e');
    v.push('n');
    v.push('"');
    v.push(':');
    v.push('"');
    proof {
        assert(v@ =~= frame_prefix());
    }
    v
}

} // verus!
