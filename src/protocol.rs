use vstd::prelude::*;
use vstd::string::StringExecFns;
use crate::json::{
    Json, field, optional_field, get_field, get_optional_field, object, take_field, parse_json,
    render_json, json_parse, json_render,
};

verus! {

/// Outcome codes carried by a server message. Their numbers are fixed by
/// the wire format and their order is the order of the numbers.
#[derive(Clone, Copy, Debug, PartialEq, Eq, PartialOrd, Ord, Hash, Structural)]
pub enum ResponseCodes {
    ResponseStatusFailure,
    ResponseStatusSuccess,
    AuthSuccess,
    AuthFailure,
    ConfigureSuccess,
    ParseFailure,
    InvalidClientPayload,
}

impl ResponseCodes {
    /// The number that stands for the code on the wire.
    pub open spec fn spec_code(self) -> int {
        match self {
            ResponseCodes::ResponseStatusFailure => -2,
            ResponseCodes::ResponseStatusSuccess => -1,
            ResponseCodes::AuthSuccess => 0,
            ResponseCodes::AuthFailure => 1,
            ResponseCodes::ConfigureSuccess => 2,
            ResponseCodes::ParseFailure => 3,
            ResponseCodes::InvalidClientPayload => 4,
        }
    }

    /// The number that stands for the code on the wire.
    pub fn code(&self) -> (r: i32)
        ensures
            r == self.spec_code(),
    {
        match self {
            ResponseCodes::ResponseStatusFailure => -2,
            ResponseCodes::ResponseStatusSuccess => -1,
            ResponseCodes::AuthSuccess => 0,
            ResponseCodes::AuthFailure => 1,
            ResponseCodes::ConfigureSuccess => 2,
            ResponseCodes::ParseFailure => 3,
            ResponseCodes::InvalidClientPayload => 4,
        }
    }

    /// The code with number `n`, if there is one.
    pub fn from_code(n: i128) -> (r: Option<ResponseCodes>)
        ensures
            match r {
                Some(c) => c.spec_code() == n,
                None => forall|c: ResponseCodes| c.spec_code() != n,
            },
    {
        if n == -2 {
            Some(ResponseCodes::ResponseStatusFailure)
        } else if n == -1 {
            Some(ResponseCodes::ResponseStatusSuccess)
        } else if n == 0 {
            Some(ResponseCodes::AuthSuccess)
        } else if n == 1 {
            Some(ResponseCodes::AuthFailure)
        } else if n == 2 {
            Some(ResponseCodes::ConfigureSuccess)
        } else if n == 3 {
            Some(ResponseCodes::ParseFailure)
        } else if n == 4 {
            Some(ResponseCodes::InvalidClientPayload)
        } else {
            None
        }
    }

    /// Compares two codes by their numbers.
    pub fn compare(&self, other: &ResponseCodes) -> (r: core::cmp::Ordering)
        ensures
            (r == core::cmp::Ordering::Less) == (self.spec_code() < other.spec_code()),
            (r == core::cmp::Ordering::Equal) == (self.spec_code() == other.spec_code()),
            (r == core::cmp::Ordering::Greater) == (self.spec_code() > other.spec_code()),
    {
        let a = self.code();
        let b = other.code();
        if a < b {
            core::cmp::Ordering::Less
        } else if a == b {
            core::cmp::Ordering::Equal
        } else {
            core::cmp::Ordering::Greater
        }
    }
}

/// Two codes with the same number are the same code, so the order by
/// number is a total order on the codes.
pub proof fn lemma_code_injective(a: ResponseCodes, b: ResponseCodes)
    ensures
        a.spec_code() == b.spec_code() <==> a == b,
{
}

/// The generic acknowledgements sit below the operation outcomes:
/// `AuthFailure > AuthSuccess > ResponseStatusSuccess > ResponseStatusFailure`.
pub proof fn lemma_code_order()
    ensures
        ResponseCodes::AuthFailure.spec_code() > ResponseCodes::AuthSuccess.spec_code(),
        ResponseCodes::AuthSuccess.spec_code() > ResponseCodes::ResponseStatusSuccess.spec_code(),
        ResponseCodes::ResponseStatusSuccess.spec_code()
            > ResponseCodes::ResponseStatusFailure.spec_code(),
        forall|c: ResponseCodes| c.spec_code() < 0 <==> (c == ResponseCodes::ResponseStatusFailure
            || c == ResponseCodes::ResponseStatusSuccess),
{
}

/// Compares a string with a literal.
pub fn str_is(a: &String, b: &str) -> (r: bool)
    ensures
        r == (a@ == b@),
{
    *a == String::from_str(b)
}

/// A JSON string holding `s`.
pub fn json_str(s: &str) -> (r: Json)
    ensures
        r is Str && r->Str_0@ == s@,
{
    Json::Str(String::from_str(s))
}

/// `j` is a JSON string whose text is `s`.
pub open spec fn is_text(j: Json, s: Seq<char>) -> bool {
    j is Str && j->Str_0@ == s
}

/// The text of a JSON string, if `j` is one.
pub fn as_text(j: &Json) -> (r: Option<&String>)
    ensures
        match r {
            Some(s) => *j == Json::Str(*s),
            None => !(j is Str),
        },
{
    match j {
        Json::Str(s) => Some(s),
        _ => None,
    }
}

/// The wire format of message bodies.
#[derive(Clone, Copy, Debug, PartialEq, Eq, PartialOrd, Ord, Hash, Structural)]
pub enum Format {
    Json,
    Msgpack,
}

impl Format {
    pub open spec fn spec_name(self) -> Seq<char> {
        match self {
            Format::Json => "json"@,
            Format::Msgpack => "msgpack"@,
        }
    }

    /// The wire name: `"json"` or `"msgpack"`.
    pub fn name(&self) -> (r: &'static str)
        ensures
            r@ == self.spec_name(),
    {
        match self {
            Format::Json => "json",
            Format::Msgpack => "msgpack",
        }
    }

    /// The format with wire name `s`.
    pub fn from_name(s: &String) -> (r: Option<Format>)
        ensures
            match r {
                Some(x) => x.spec_name() == s@,
                None => forall|x: Format| x.spec_name() != s@,
            },
    {
        if str_is(s, "json") {
            Some(Format::Json)
        } else if str_is(s, "msgpack") {
            Some(Format::Msgpack)
        } else {
            None
        }
    }
}

/// The compression of message bodies.
#[derive(Clone, Copy, Debug, PartialEq, Eq, PartialOrd, Ord, Hash, Structural)]
pub enum Compression {
    /// No compression; `"none"` on the wire.
    Uncompressed,
    Zstd,
}

impl Compression {
    pub open spec fn spec_name(self) -> Seq<char> {
        match self {
            Compression::Uncompressed => "none"@,
            Compression::Zstd => "zstd"@,
        }
    }

    /// The wire name: `"none"` or `"zstd"`.
    pub fn name(&self) -> (r: &'static str)
        ensures
            r@ == self.spec_name(),
    {
        match self {
            Compression::Uncompressed => "none",
            Compression::Zstd => "zstd",
        }
    }

    /// The compression with wire name `s`.
    pub fn from_name(s: &String) -> (r: Option<Compression>)
        ensures
            match r {
                Some(x) => x.spec_name() == s@,
                None => forall|x: Compression| x.spec_name() != s@,
            },
    {
        if str_is(s, "none") {
            Some(Compression::Uncompressed)
        } else if str_is(s, "zstd") {
            Some(Compression::Zstd)
        } else {
            None
        }
    }
}

/// How far a group's or the broker's data is replicated.
#[derive(Clone, Copy, Debug, PartialEq, Eq, PartialOrd, Ord, Hash, Structural)]
pub enum Replication {
    /// No replication; `"None"` on the wire.
    Unreplicated,
    Datacenter,
    Region,
}

impl Replication {
    pub open spec fn spec_name(self) -> Seq<char> {
        match self {
            Replication::Unreplicated => "None"@,
            Replication::Datacenter => "Datacenter"@,
            Replication::Region => "Region"@,
        }
    }

    /// The wire name, the variant's own name.
    pub fn name(&self) -> (r: &'static str)
        ensures
            r@ == self.spec_name(),
    {
        match self {
            Replication::Unreplicated => "None",
            Replication::Datacenter => "Datacenter",
            Replication::Region => "Region",
        }
    }

    /// The replication with wire name `s`.
    pub fn from_name(s: &String) -> (r: Option<Replication>)
        ensures
            match r {
                Some(x) => x.spec_name() == s@,
                None => forall|x: Replication| x.spec_name() != s@,
            },
    {
        if str_is(s, "None") {
            Some(Replication::Unreplicated)
        } else if str_is(s, "Datacenter") {
            Some(Replication::Datacenter)
        } else if str_is(s, "Region") {
            Some(Replication::Region)
        } else {
            None
        }
    }
}

/// How a message is sent: at once, or kept for a group.
#[derive(Clone, Copy, Debug, PartialEq, Eq, PartialOrd, Ord, Hash, Structural)]
pub enum SendMethod {
    Immediate,
    Later,
}

impl SendMethod {
    pub open spec fn spec_name(self) -> Seq<char> {
        match self {
            SendMethod::Immediate => "immediate"@,
            SendMethod::Later => "later"@,
        }
    }

    /// The wire name: `"immediate"` or `"later"`.
    pub fn name(&self) -> (r: &'static str)
        ensures
            r@ == self.spec_name(),
    {
        match self {
            SendMethod::Immediate => "immediate",
            SendMethod::Later => "later",
        }
    }

    /// The method with wire name `s`.
    pub fn from_name(s: &String) -> (r: Option<SendMethod>)
        ensures
            match r {
                Some(x) => x.spec_name() == s@,
                None => forall|x: SendMethod| x.spec_name() != s@,
            },
    {
        if str_is(s, "immediate") {
            Some(SendMethod::Immediate)
        } else if str_is(s, "later") {
            Some(SendMethod::Later)
        } else {
            None
        }
    }
}

/// What a configure request applies to.
#[derive(Clone, Copy, Debug, PartialEq, Eq, PartialOrd, Ord, Hash, Structural)]
pub enum ConfigureScope {
    Session,
    Group,
    Global,
}

impl ConfigureScope {
    pub open spec fn spec_name(self) -> Seq<char> {
        match self {
            ConfigureScope::Session => "session"@,
            ConfigureScope::Group => "group"@,
            ConfigureScope::Global => "global"@,
        }
    }

    /// The wire name: `"session"`, `"group"` or `"global"`.
    pub fn name(&self) -> (r: &'static str)
        ensures
            r@ == self.spec_name(),
    {
        match self {
            ConfigureScope::Session => "session",
            ConfigureScope::Group => "group",
            ConfigureScope::Global => "global",
        }
    }

    /// The scope with wire name `s`.
    pub fn from_name(s: &String) -> (r: Option<ConfigureScope>)
        ensures
            match r {
                Some(x) => x.spec_name() == s@,
                None => forall|x: ConfigureScope| x.spec_name() != s@,
            },
    {
        if str_is(s, "session") {
            Some(ConfigureScope::Session)
        } else if str_is(s, "group") {
            Some(ConfigureScope::Group)
        } else if str_is(s, "global") {
            Some(ConfigureScope::Global)
        } else {
            None
        }
    }
}

/// Why a document could not be read as a protocol value.
#[derive(Clone, Copy, Debug, PartialEq, Eq, Hash, Structural)]
pub enum DecodeError {
    /// The text is not a JSON document.
    NotJson,
    /// A field is missing or has the wrong shape.
    InvalidShape,
    /// An untagged union matches none of its alternatives, or not the one
    /// that the envelope's discriminant asks for.
    AmbiguousOrInvalidUnion,
}

/// `j` is a JSON integer equal to `n`.
pub open spec fn is_int(j: Json, n: int) -> bool {
    j is Number && j->Number_0 is Some && j->Number_0->Some_0 == n
}

/// A JSON integer.
pub fn json_u64(n: u64) -> (r: Json)
    ensures
        is_int(r, n as int),
{
    Json::Number(Some(n as i128))
}

/// Reads an unsigned 64-bit integer.
pub fn u64_of(j: &Json) -> (r: Result<u64, DecodeError>)
    ensures
        match r {
            Ok(n) => is_int(*j, n as int),
            Err(_) => forall|n: u64| !is_int(*j, n as int),
        },
{
    match j {
        Json::Number(Some(i)) => {
            if 0 <= *i && *i <= u64::MAX as i128 {
                Ok(*i as u64)
            } else {
                Err(DecodeError::InvalidShape)
            }
        },
        _ => Err(DecodeError::InvalidShape),
    }
}

/// Reads a boolean.
pub fn bool_of(j: &Json) -> (r: Result<bool, DecodeError>)
    ensures
        match r {
            Ok(b) => *j == Json::Bool(b),
            Err(_) => !(j is Bool),
        },
{
    match j {
        Json::Bool(b) => Ok(*b),
        _ => Err(DecodeError::InvalidShape),
    }
}

/// Reads a string, by copy.
pub fn string_of(j: &Json) -> (r: Result<String, DecodeError>)
    ensures
        match r {
            Ok(s) => *j == Json::Str(s),
            Err(_) => !(j is Str),
        },
{
    match j {
        Json::Str(s) => Ok(s.clone()),
        _ => Err(DecodeError::InvalidShape),
    }
}

/// A required field.
pub fn required<'a>(j: &'a Json, key: &str) -> (r: Result<&'a Json, DecodeError>)
    ensures
        match r {
            Ok(v) => field(*j, key@) == Some(*v),
            Err(_) => field(*j, key@) is None,
        },
{
    match get_field(j, key) {
        Some(v) => Ok(v),
        None => Err(DecodeError::InvalidShape),
    }
}

/// `j` is the wire form of an optional string: absent or `null` for `None`.
pub open spec fn optional_text_is(j: Option<Json>, s: Option<String>) -> bool {
    match s {
        Some(t) => j == Some(Json::Str(t)),
        None => j is None,
    }
}

/// The wire form of an optional string.
pub fn json_optional_string(s: &Option<String>) -> (r: Json)
    ensures
        match s {
            Some(t) => r == Json::Str(*t),
            None => r == Json::Null,
        },
{
    match s {
        Some(t) => Json::Str(t.clone()),
        None => Json::Null,
    }
}

/// Reads an optional string field.
pub fn optional_string_field(j: &Json, key: &str) -> (r: Result<Option<String>, DecodeError>)
    ensures
        match r {
            Ok(s) => optional_text_is(optional_field(*j, key@), s),
            Err(_) => forall|s: Option<String>| !optional_text_is(optional_field(*j, key@), s),
        },
{
    match get_optional_field(j, key) {
        None => Ok(None),
        Some(v) => match string_of(v) {
            Ok(s) => Ok(Some(s)),
            Err(e) => Err(e),
        },
    }
}

/// Settings of a session, negotiated when it starts.
#[derive(Clone, Debug, PartialEq, Eq, PartialOrd, Ord, Hash)]
pub struct SessionConfig {
    pub format: Format,
    pub compression: Compression,
    pub metadata: Option<String>,
}

impl SessionConfig {
    /// `j` is a wire form of this configuration.
    pub open spec fn written_as(self, j: Json) -> bool {
        &&& field(j, "format"@) matches Some(f) && is_text(f, self.format.spec_name())
        &&& field(j, "compression"@) matches Some(c) && is_text(c, self.compression.spec_name())
        &&& optional_text_is(optional_field(j, "metadata"@), self.metadata)
    }

    /// The wire form: `{"format", "compression", "metadata"}`.
    pub fn to_json(&self) -> (r: Json)
        ensures
            self.written_as(r),
    {
        let keys = vec!["format", "compression", "metadata"];
        proof {
            reveal_strlit("format");
            reveal_strlit("compression");
            reveal_strlit("metadata");
            assert("format"@.len() == 6);
            assert("compression"@.len() == 11);
            assert("metadata"@.len() == 8);
            assert(keys[0]@ == "format"@);
            assert(keys[1]@ == "compression"@);
            assert(keys[2]@ == "metadata"@);
        }
        object(
            keys,
            vec![
                json_str(self.format.name()),
                json_str(self.compression.name()),
                json_optional_string(&self.metadata),
            ],
        )
    }

    /// Reads a configuration.
    pub fn from_json(j: &Json) -> (r: Result<SessionConfig, DecodeError>)
        ensures
            match r {
                Ok(c) => c.written_as(*j),
                Err(_) => forall|c: SessionConfig| !c.written_as(*j),
            },
    {
        let f = match as_text(required(j, "format")?) {
            Some(s) => s,
            None => return Err(DecodeError::InvalidShape),
        };
        let format = match Format::from_name(f) {
            Some(x) => x,
            None => return Err(DecodeError::InvalidShape),
        };
        let c = match as_text(required(j, "compression")?) {
            Some(s) => s,
            None => return Err(DecodeError::InvalidShape),
        };
        let compression = match Compression::from_name(c) {
            Some(x) => x,
            None => return Err(DecodeError::InvalidShape),
        };
        let metadata = optional_string_field(j, "metadata")?;
        Ok(SessionConfig { format, compression, metadata })
    }
}

/// Limits of a message group.
#[derive(Clone, Debug, PartialEq, Eq, PartialOrd, Ord, Hash)]
pub struct GroupConfig {
    pub max_size: u64,
    pub max_age: u64,
    pub replication: Replication,
}

impl GroupConfig {
    /// `j` is a wire form of these settings.
    pub open spec fn written_as(self, j: Json) -> bool {
        &&& field(j, "max_size"@) matches Some(v) && is_int(v, self.max_size as int)
        &&& field(j, "max_age"@) matches Some(v) && is_int(v, self.max_age as int)
        &&& field(j, "replication"@) matches Some(v) && is_text(v, self.replication.spec_name())
    }

    /// The wire form: `{"max_size", "max_age", "replication"}`.
    pub fn to_json(&self) -> (r: Json)
        ensures
            self.written_as(r),
    {
        let keys = vec!["max_size", "max_age", "replication"];
        proof {
            reveal_strlit("max_size");
            reveal_strlit("max_age");
            reveal_strlit("replication");
            assert("max_size"@.len() == 8);
            assert("max_age"@.len() == 7);
            assert("replication"@.len() == 11);
            assert(keys[0]@ == "max_size"@);
            assert(keys[1]@ == "max_age"@);
            assert(keys[2]@ == "replication"@);
        }
        object(
            keys,
            vec![
                json_u64(self.max_size),
                json_u64(self.max_age),
                json_str(self.replication.name()),
            ],
        )
    }

    /// Reads these settings.
    pub fn from_json(j: &Json) -> (r: Result<GroupConfig, DecodeError>)
        ensures
            match r {
                Ok(c) => c.written_as(*j),
                Err(_) => forall|c: GroupConfig| !c.written_as(*j),
            },
    {
        let max_size = u64_of(required(j, "max_size")?)?;
        let max_age = u64_of(required(j, "max_age")?)?;
        let rep = match as_text(required(j, "replication")?) {
            Some(s) => s,
            None => return Err(DecodeError::InvalidShape),
        };
        let replication = match Replication::from_name(rep) {
            Some(x) => x,
            None => return Err(DecodeError::InvalidShape),
        };
        Ok(GroupConfig { max_size, max_age, replication })
    }
}

/// Limits that apply to all of a party's sessions.
#[derive(Clone, Debug, PartialEq, Eq, PartialOrd, Ord, Hash)]
pub struct GlobalSessionConfig {
    pub max_size: u64,
    pub max_age: u64,
    pub replication: Replication,
}

impl GlobalSessionConfig {
    /// `j` is a wire form of these settings.
    pub open spec fn written_as(self, j: Json) -> bool {
        &&& field(j, "max_size"@) matches Some(v) && is_int(v, self.max_size as int)
        &&& field(j, "max_age"@) matches Some(v) && is_int(v, self.max_age as int)
        &&& field(j, "replication"@) matches Some(v) && is_text(v, self.replication.spec_name())
    }

    /// The wire form: `{"max_size", "max_age", "replication"}`.
    pub fn to_json(&self) -> (r: Json)
        ensures
            self.written_as(r),
    {
        let keys = vec!["max_size", "max_age", "replication"];
        proof {
            reveal_strlit("max_size");
            reveal_strlit("max_age");
            reveal_strlit("replication");
            assert("max_size"@.len() == 8);
            assert("max_age"@.len() == 7);
            assert("replication"@.len() == 11);
            assert(keys[0]@ == "max_size"@);
            assert(keys[1]@ == "max_age"@);
            assert(keys[2]@ == "replication"@);
        }
        object(
            keys,
            vec![
                json_u64(self.max_size),
                json_u64(self.max_age),
                json_str(self.replication.name()),
            ],
        )
    }

    /// Reads these settings.
    pub fn from_json(j: &Json) -> (r: Result<GlobalSessionConfig, DecodeError>)
        ensures
            match r {
                Ok(c) => c.written_as(*j),
                Err(_) => forall|c: GlobalSessionConfig| !c.written_as(*j),
            },
    {
        let max_size = u64_of(required(j, "max_size")?)?;
        let max_age = u64_of(required(j, "max_age")?)?;
        let rep = match as_text(required(j, "replication")?) {
            Some(s) => s,
            None => return Err(DecodeError::InvalidShape),
        };
        let replication = match Replication::from_name(rep) {
            Some(x) => x,
            None => return Err(DecodeError::InvalidShape),
        };
        Ok(GlobalSessionConfig { max_size, max_age, replication })
    }
}

/// Settings of a message sent at once.
#[derive(Clone, Debug, PartialEq, Eq, PartialOrd, Ord, Hash)]
pub struct SendConfig {
    pub nonce: String,
    pub await_reply: bool,
}

impl SendConfig {
    /// `j` is a wire form of these settings.
    pub open spec fn written_as(self, j: Json) -> bool {
        &&& field(j, "nonce"@) == Some(Json::Str(self.nonce))
        &&& field(j, "await_reply"@) == Some(Json::Bool(self.await_reply))
    }

    /// The wire form: `{"nonce", "await_reply"}`.
    pub fn to_json(&self) -> (r: Json)
        ensures
            self.written_as(r),
    {
        let keys = vec!["nonce", "await_reply"];
        proof {
            reveal_strlit("nonce");
            reveal_strlit("await_reply");
            assert("nonce"@.len() == 5);
            assert("await_reply"@.len() == 11);
            assert(keys[0]@ == "nonce"@);
            assert(keys[1]@ == "await_reply"@);
        }
        object(
            keys,
            vec![
                Json::Str(self.nonce.clone()),
                Json::Bool(self.await_reply),
            ],
        )
    }

    /// Reads these settings.
    pub fn from_json(j: &Json) -> (r: Result<SendConfig, DecodeError>)
        ensures
            match r {
                Ok(c) => c.written_as(*j),
                Err(_) => forall|c: SendConfig| !c.written_as(*j),
            },
    {
        let nonce = string_of(required(j, "nonce")?)?;
        let await_reply = bool_of(required(j, "await_reply")?)?;
        Ok(SendConfig { nonce, await_reply })
    }
}

/// Settings of a message kept for a group and sent later.
#[derive(Clone, Debug, PartialEq, Eq, PartialOrd, Ord, Hash)]
pub struct SendLaterConfig {
    pub group: String,
}

impl SendLaterConfig {
    /// `j` is a wire form of these settings.
    pub open spec fn written_as(self, j: Json) -> bool {
        field(j, "group"@) == Some(Json::Str(self.group))
    }

    /// The wire form: `{"group"}`.
    pub fn to_json(&self) -> (r: Json)
        ensures
            self.written_as(r),
    {
        let keys = vec!["group"];
        proof {
            reveal_strlit("group");
            assert("group"@.len() == 5);
            assert(keys[0]@ == "group"@);
        }
        object(
            keys,
            vec![
                Json::Str(self.group.clone()),
            ],
        )
    }

    /// Reads these settings.
    pub fn from_json(j: &Json) -> (r: Result<SendLaterConfig, DecodeError>)
        ensures
            match r {
                Ok(c) => c.written_as(*j),
                Err(_) => forall|c: SendLaterConfig| !c.written_as(*j),
            },
    {
        let group = string_of(required(j, "group")?)?;
        Ok(SendLaterConfig { group })
    }
}

/// The settings of a send: one of two shapes, written without a tag.
#[derive(Clone, Debug, PartialEq, Eq, PartialOrd, Ord, Hash)]
pub enum SendConfigs {
    Send(SendConfig),
    SendLater(SendLaterConfig),
}

impl SendConfigs {
    /// The shape of the settings is the one that `method` asks for.
    pub open spec fn fits(self, method: SendMethod) -> bool {
        match self {
            SendConfigs::Send(_) => method == SendMethod::Immediate,
            SendConfigs::SendLater(_) => method == SendMethod::Later,
        }
    }

    /// `j` is a wire form of these settings.
    pub open spec fn written_as(self, j: Json) -> bool {
        match self {
            SendConfigs::Send(c) => c.written_as(j),
            SendConfigs::SendLater(c) => c.written_as(j),
        }
    }

    /// The wire form: the inner settings, untagged.
    pub fn to_json(&self) -> (r: Json)
        ensures
            self.written_as(r),
    {
        match self {
            SendConfigs::Send(c) => c.to_json(),
            SendConfigs::SendLater(c) => c.to_json(),
        }
    }

    /// Reads the settings of a send with `method`: only the shape that the
    /// method asks for is tried.
    pub fn from_json(j: &Json, method: SendMethod) -> (r: Result<SendConfigs, DecodeError>)
        ensures
            match r {
                Ok(c) => c.written_as(*j) && c.fits(method),
                Err(e) => e == DecodeError::AmbiguousOrInvalidUnion
                    && forall|c: SendConfigs| !(c.written_as(*j) && c.fits(method)),
            },
    {
        match method {
            SendMethod::Immediate => match SendConfig::from_json(j) {
                Ok(c) => Ok(SendConfigs::Send(c)),
                Err(_) => Err(DecodeError::AmbiguousOrInvalidUnion),
            },
            SendMethod::Later => match SendLaterConfig::from_json(j) {
                Ok(c) => Ok(SendConfigs::SendLater(c)),
                Err(_) => Err(DecodeError::AmbiguousOrInvalidUnion),
            },
        }
    }
}

/// The settings of a configure request: one shape per scope, written
/// without a tag.
#[derive(Clone, Debug, PartialEq, Eq, PartialOrd, Ord, Hash)]
pub enum ConfigurePayload {
    Session(SessionConfig),
    Group(GroupConfig),
    Global(GlobalSessionConfig),
}

impl ConfigurePayload {
    /// The shape of the settings is the one that `scope` asks for.
    pub open spec fn fits(self, scope: ConfigureScope) -> bool {
        match self {
            ConfigurePayload::Session(_) => scope == ConfigureScope::Session,
            ConfigurePayload::Group(_) => scope == ConfigureScope::Group,
            ConfigurePayload::Global(_) => scope == ConfigureScope::Global,
        }
    }

    /// Whether the shape of the settings is the one that `scope` asks for.
    pub fn matches_scope(&self, scope: ConfigureScope) -> (r: bool)
        ensures
            r == self.fits(scope),
    {
        match self {
            ConfigurePayload::Session(_) => scope == ConfigureScope::Session,
            ConfigurePayload::Group(_) => scope == ConfigureScope::Group,
            ConfigurePayload::Global(_) => scope == ConfigureScope::Global,
        }
    }

    /// `j` is a wire form of these settings.
    pub open spec fn written_as(self, j: Json) -> bool {
        match self {
            ConfigurePayload::Session(c) => c.written_as(j),
            ConfigurePayload::Group(c) => c.written_as(j),
            ConfigurePayload::Global(c) => c.written_as(j),
        }
    }

    /// The wire form: the inner settings, untagged.
    pub fn to_json(&self) -> (r: Json)
        ensures
            self.written_as(r),
    {
        match self {
            ConfigurePayload::Session(c) => c.to_json(),
            ConfigurePayload::Group(c) => c.to_json(),
            ConfigurePayload::Global(c) => c.to_json(),
        }
    }

    /// Reads the settings of a configure request with `scope`: only the
    /// shape that the scope asks for is tried.
    pub fn from_json(j: &Json, scope: ConfigureScope) -> (r: Result<ConfigurePayload, DecodeError>)
        ensures
            match r {
                Ok(c) => c.written_as(*j) && c.fits(scope),
                Err(e) => e == DecodeError::AmbiguousOrInvalidUnion
                    && forall|c: ConfigurePayload| !(c.written_as(*j) && c.fits(scope)),
            },
    {
        match scope {
            ConfigureScope::Session => match SessionConfig::from_json(j) {
                Ok(c) => Ok(ConfigurePayload::Session(c)),
                Err(_) => Err(DecodeError::AmbiguousOrInvalidUnion),
            },
            ConfigureScope::Group => match GroupConfig::from_json(j) {
                Ok(c) => Ok(ConfigurePayload::Group(c)),
                Err(_) => Err(DecodeError::AmbiguousOrInvalidUnion),
            },
            ConfigureScope::Global => match GlobalSessionConfig::from_json(j) {
                Ok(c) => Ok(ConfigurePayload::Global(c)),
                Err(_) => Err(DecodeError::AmbiguousOrInvalidUnion),
            },
        }
    }
}

/// A comparison at a leaf of a filter tree.
#[derive(Clone, Copy, Debug, PartialEq, Eq, PartialOrd, Ord, Hash, Structural)]
pub enum BooleanOperator {
    Equals,
    NotEquals,
    GreaterThan,
    GreaterThanOrEqual,
    LessThan,
    LessThanOrEqual,
    In,
    NotIn,
    Contains,
    NotContains,
    Exists,
}

impl BooleanOperator {
    pub open spec fn spec_name(self) -> Seq<char> {
        match self {
            BooleanOperator::Equals => "Equals"@,
            BooleanOperator::NotEquals => "NotEquals"@,
            BooleanOperator::GreaterThan => "GreaterThan"@,
            BooleanOperator::GreaterThanOrEqual => "GreaterThanOrEqual"@,
            BooleanOperator::LessThan => "LessThan"@,
            BooleanOperator::LessThanOrEqual => "LessThanOrEqual"@,
            BooleanOperator::In => "In"@,
            BooleanOperator::NotIn => "NotIn"@,
            BooleanOperator::Contains => "Contains"@,
            BooleanOperator::NotContains => "NotContains"@,
            BooleanOperator::Exists => "Exists"@,
        }
    }

    /// The wire name, the variant's own name.
    pub fn name(&self) -> (r: &'static str)
        ensures
            r@ == self.spec_name(),
    {
        match self {
            BooleanOperator::Equals => "Equals",
            BooleanOperator::NotEquals => "NotEquals",
            BooleanOperator::GreaterThan => "GreaterThan",
            BooleanOperator::GreaterThanOrEqual => "GreaterThanOrEqual",
            BooleanOperator::LessThan => "LessThan",
            BooleanOperator::LessThanOrEqual => "LessThanOrEqual",
            BooleanOperator::In => "In",
            BooleanOperator::NotIn => "NotIn",
            BooleanOperator::Contains => "Contains",
            BooleanOperator::NotContains => "NotContains",
            BooleanOperator::Exists => "Exists",
        }
    }

    /// The value with wire name `s`.
    pub fn from_name(s: &String) -> (r: Option<BooleanOperator>)
        ensures
            match r {
                Some(x) => x.spec_name() == s@,
                None => forall|x: BooleanOperator| x.spec_name() != s@,
            },
    {
        if str_is(s, "Equals") {
            Some(BooleanOperator::Equals)
        } else if str_is(s, "NotEquals") {
            Some(BooleanOperator::NotEquals)
        } else if str_is(s, "GreaterThan") {
            Some(BooleanOperator::GreaterThan)
        } else if str_is(s, "GreaterThanOrEqual") {
            Some(BooleanOperator::GreaterThanOrEqual)
        } else if str_is(s, "LessThan") {
            Some(BooleanOperator::LessThan)
        } else if str_is(s, "LessThanOrEqual") {
            Some(BooleanOperator::LessThanOrEqual)
        } else if str_is(s, "In") {
            Some(BooleanOperator::In)
        } else if str_is(s, "NotIn") {
            Some(BooleanOperator::NotIn)
        } else if str_is(s, "Contains") {
            Some(BooleanOperator::Contains)
        } else if str_is(s, "NotContains") {
            Some(BooleanOperator::NotContains)
        } else if str_is(s, "Exists") {
            Some(BooleanOperator::Exists)
        } else {
            None
        }
    }
}

/// A connective at an inner node of a filter tree.
#[derive(Clone, Copy, Debug, PartialEq, Eq, PartialOrd, Ord, Hash, Structural)]
pub enum LogicalOperator {
    And,
    Or,
    Not,
    Xor,
}

impl LogicalOperator {
    pub open spec fn spec_name(self) -> Seq<char> {
        match self {
            LogicalOperator::And => "And"@,
            LogicalOperator::Or => "Or"@,
            LogicalOperator::Not => "Not"@,
            LogicalOperator::Xor => "Xor"@,
        }
    }

    /// The wire name, the variant's own name.
    pub fn name(&self) -> (r: &'static str)
        ensures
            r@ == self.spec_name(),
    {
        match self {
            LogicalOperator::And => "And",
            LogicalOperator::Or => "Or",
            LogicalOperator::Not => "Not",
            LogicalOperator::Xor => "Xor",
        }
    }

    /// The value with wire name `s`.
    pub fn from_name(s: &String) -> (r: Option<LogicalOperator>)
        ensures
            match r {
                Some(x) => x.spec_name() == s@,
                None => forall|x: LogicalOperator| x.spec_name() != s@,
            },
    {
        if str_is(s, "And") {
            Some(LogicalOperator::And)
        } else if str_is(s, "Or") {
            Some(LogicalOperator::Or)
        } else if str_is(s, "Not") {
            Some(LogicalOperator::Not)
        } else if str_is(s, "Xor") {
            Some(LogicalOperator::Xor)
        } else {
            None
        }
    }
}

/// The direction of a sort.
#[derive(Clone, Copy, Debug, PartialEq, Eq, PartialOrd, Ord, Hash, Structural)]
pub enum Ordering {
    Ascending,
    Descending,
}

impl Ordering {
    pub open spec fn spec_name(self) -> Seq<char> {
        match self {
            Ordering::Ascending => "Ascending"@,
            Ordering::Descending => "Descending"@,
        }
    }

    /// The wire name, the variant's own name.
    pub fn name(&self) -> (r: &'static str)
        ensures
            r@ == self.spec_name(),
    {
        match self {
            Ordering::Ascending => "Ascending",
            Ordering::Descending => "Descending",
        }
    }

    /// The value with wire name `s`.
    pub fn from_name(s: &String) -> (r: Option<Ordering>)
        ensures
            match r {
                Some(x) => x.spec_name() == s@,
                None => forall|x: Ordering| x.spec_name() != s@,
            },
    {
        if str_is(s, "Ascending") {
            Some(Ordering::Ascending)
        } else if str_is(s, "Descending") {
            Some(Ordering::Descending)
        } else {
            None
        }
    }
}

/// The right-hand side of a comparison: a path into a message's metadata,
/// or a literal value.
#[derive(Clone, Debug, PartialEq, Eq, PartialOrd, Ord, Hash)]
pub enum MetadataValue {
    Path { path: String },
    Value { value: String },
}

impl MetadataValue {
    /// `j` is a wire form of this value: `{"Path": {"path"}}` or
    /// `{"Value": {"value"}}`.
    pub open spec fn written_as(self, j: Json) -> bool {
        match self {
            MetadataValue::Path { path } => field(j, "Path"@) matches Some(x)
                && field(x, "path"@) == Some(Json::Str(path)),
            MetadataValue::Value { value } => field(j, "Path"@) is None && (field(j, "Value"@) matches Some(x)
                && field(x, "value"@) == Some(Json::Str(value))),
        }
    }

    /// The wire form.
    pub fn to_json(&self) -> (r: Json)
        ensures
            self.written_as(r),
    {
        match self {
            MetadataValue::Path { path } => {
                let inner = {
                    let keys = vec!["path"];
                    proof {
                        reveal_strlit("path");
                        assert("path"@.len() == 4);
                        assert(keys[0]@ == "path"@);
                    }
                    object(
                        keys,
                        vec![
                            Json::Str(path.clone()),
                        ],
                    )
                };
                let keys = vec!["Path"];
                proof {
                    reveal_strlit("Path");
                    assert("Path"@.len() == 4);
                    assert(keys[0]@ == "Path"@);
                }
                object(
                    keys,
                    vec![
                        inner,
                    ],
                )
            },
            MetadataValue::Value { value } => {
                let inner = {
                    let keys = vec!["value"];
                    proof {
                        reveal_strlit("value");
                        assert("value"@.len() == 5);
                        assert(keys[0]@ == "value"@);
                    }
                    object(
                        keys,
                        vec![
                            Json::Str(value.clone()),
                        ],
                    )
                };
                let keys = vec!["Value"];
                proof {
                    reveal_strlit("Path");
                    reveal_strlit("Value");
                    assert("Path"@.len() == 4);
                    assert("Value"@.len() == 5);
                    assert(keys[0]@ == "Value"@);
                }
                object(
                    keys,
                    vec![
                        inner,
                    ],
                )
            },
        }
    }

    /// Reads a value.
    pub fn from_json(j: &Json) -> (r: Result<MetadataValue, DecodeError>)
        ensures
            match r {
                Ok(v) => v.written_as(*j),
                Err(_) => forall|v: MetadataValue| !v.written_as(*j),
            },
    {
        match get_field(j, "Path") {
            Some(x) => {
                let path = string_of(required(x, "path")?)?;
                Ok(MetadataValue::Path { path })
            },
            None => {
                let x = required(j, "Value")?;
                let value = string_of(required(x, "value")?)?;
                Ok(MetadataValue::Value { value })
            },
        }
    }
}

/// A leaf of a filter tree: compares the metadata at `path` with `value`.
#[derive(Clone, Debug, PartialEq, Eq, PartialOrd, Ord, Hash)]
pub struct BooleanOperation {
    pub op: BooleanOperator,
    pub path: String,
    pub value: MetadataValue,
}

impl BooleanOperation {
    /// `j` is a wire form of this comparison: `{"op", "path", "value"}`.
    pub open spec fn written_as(self, j: Json) -> bool
        decreases self,
    {
        &&& field(j, "op"@) matches Some(o) && is_text(o, self.op.spec_name())
        &&& field(j, "path"@) == Some(Json::Str(self.path))
        &&& field(j, "value"@) matches Some(v) && self.value.written_as(v)
    }

    /// The wire form.
    pub fn to_json(&self) -> (r: Json)
        ensures
            self.written_as(r),
    {
        let keys = vec!["op", "path", "value"];
        proof {
            reveal_strlit("op");
            reveal_strlit("path");
            reveal_strlit("value");
            assert("op"@.len() == 2);
            assert("path"@.len() == 4);
            assert("value"@.len() == 5);
            assert(keys[0]@ == "op"@);
            assert(keys[1]@ == "path"@);
            assert(keys[2]@ == "value"@);
        }
        object(
            keys,
            vec![
                json_str(self.op.name()),
                Json::Str(self.path.clone()),
                self.value.to_json(),
            ],
        )
    }

    /// Reads a comparison.
    pub fn from_json(j: &Json) -> (r: Result<BooleanOperation, DecodeError>)
        ensures
            match r {
                Ok(b) => b.written_as(*j),
                Err(_) => forall|b: BooleanOperation| !b.written_as(*j),
            },
    {
        let op = match as_text(required(j, "op")?) {
            Some(s) => match BooleanOperator::from_name(s) {
                Some(x) => x,
                None => return Err(DecodeError::InvalidShape),
            },
            None => return Err(DecodeError::InvalidShape),
        };
        let path = string_of(required(j, "path")?)?;
        let value = MetadataValue::from_json(required(j, "value")?)?;
        Ok(BooleanOperation { op, path, value })
    }
}

/// How deep a filter tree read from the wire may nest.
pub const MAX_FILTER_DEPTH: u64 = 32;

/// An inner node of a filter tree: a connective over its operands.
#[derive(Debug, PartialEq, Eq, PartialOrd, Ord, Hash)]
pub struct LogicalOperation {
    pub op: LogicalOperator,
    pub operands: Vec<FilterNode>,
}

/// A node of a filter tree: a comparison or a connective.
#[derive(Debug, PartialEq, Eq, PartialOrd, Ord, Hash)]
pub enum FilterNode {
    Boolean(BooleanOperation),
    Logical(LogicalOperation),
}

impl FilterNode {
    /// `j` is a wire form of this node: `{"Left": comparison}` or
    /// `{"Right": connective}`.
    pub open spec fn written_as(self, j: Json) -> bool
        decreases self,
    {
        match self {
            FilterNode::Boolean(b) => field(j, "Left"@) matches Some(x) && b.written_as(x),
            FilterNode::Logical(l) => field(j, "Left"@) is None && (field(j, "Right"@) matches Some(x)
                && l.written_as(x)),
        }
    }

    /// The wire form.
    pub fn to_json(&self) -> (r: Json)
        ensures
            self.written_as(r),
        decreases self,
    {
        match self {
            FilterNode::Boolean(b) => {
                let inner = b.to_json();
                let keys = vec!["Left"];
                proof {
                    reveal_strlit("Left");
                    assert("Left"@.len() == 4);
                    assert(keys[0]@ == "Left"@);
                }
                let r = object(
                    keys,
                    vec![
                        inner,
                    ],
                );
                proof {
                    lemma_boolean_node_written_as(*b, r);
                }
                r
            },
            FilterNode::Logical(l) => {
                let inner = l.to_json();
                let keys = vec!["Right"];
                proof {
                    reveal_strlit("Left");
                    reveal_strlit("Right");
                    assert("Left"@.len() == 4);
                    assert("Right"@.len() == 5);
                    assert(keys[0]@ == "Right"@);
                }
                let r = object(
                    keys,
                    vec![
                        inner,
                    ],
                );
                proof {
                    lemma_logical_node_written_as(*l, r);
                }
                r
            },
        }
    }

    /// Reads a node whose subtree nests at most `depth` levels. It fails
    /// only where no node that fits in `depth` is written as `j`.
    pub fn from_json(j: &Json, depth: u64) -> (r: Result<FilterNode, DecodeError>)
        ensures
            r matches Ok(n) ==> n.written_as(*j) && node_fits(n, depth as int),
            r is Err ==> forall|n: FilterNode| node_fits(n, depth as int) ==> !n.written_as(*j),
        decreases depth, 2u64,
    {
        match get_field(j, "Left") {
            Some(x) => match BooleanOperation::from_json(x) {
                Ok(b) => {
                    proof {
                        lemma_boolean_node_written_as(b, *j);
                    }
                    Ok(FilterNode::Boolean(b))
                },
                Err(e) => {
                    proof {
                        assert forall|n: FilterNode| node_fits(n, depth as int) implies !n.written_as(*j) by {
                            match n {
                                FilterNode::Boolean(b) => lemma_boolean_node_written_as(b, *j),
                                FilterNode::Logical(l) => lemma_logical_node_written_as(l, *j),
                            }
                        }
                    }
                    Err(e)
                },
            },
            None => {
                let x = match get_field(j, "Right") {
                    Some(x) => x,
                    None => {
                        proof {
                            assert forall|n: FilterNode| node_fits(n, depth as int) implies !n.written_as(*j) by {
                                match n {
                                    FilterNode::Boolean(b) => lemma_boolean_node_written_as(b, *j),
                                    FilterNode::Logical(l) => lemma_logical_node_written_as(l, *j),
                                }
                            }
                        }
                        return Err(DecodeError::InvalidShape);
                    },
                };
                match LogicalOperation::from_json(x, depth) {
                    Ok(l) => {
                        proof {
                            lemma_logical_node_written_as(l, *j);
                            lemma_logical_fits(l, depth as int);
                        }
                        Ok(FilterNode::Logical(l))
                    },
                    Err(e) => {
                        proof {
                            assert forall|n: FilterNode| node_fits(n, depth as int) implies !n.written_as(*j) by {
                                match n {
                                    FilterNode::Boolean(b) => lemma_boolean_node_written_as(b, *j),
                                    FilterNode::Logical(l) => {
                                        lemma_logical_node_written_as(l, *j);
                                        lemma_logical_fits(l, depth as int);
                                    },
                                }
                            }
                        }
                        Err(e)
                    },
                }
            },
        }
    }
}

/// The node nests at most `d` levels of connectives below a list read
/// with depth `d + 1`: a comparison always fits, a connective fits when its
/// operands fit one level lower.
pub open spec fn node_fits(n: FilterNode, d: int) -> bool
    decreases n,
{
    match n {
        FilterNode::Boolean(_) => true,
        FilterNode::Logical(l) => d >= 1 && forall|i: int|
            #![trigger l.operands[i]]
            0 <= i < l.operands.len() ==> node_fits(l.operands[i], d - 1),
    }
}

/// A list of nodes can be read with depth `d`.
pub open spec fn nodes_fit(nodes: Vec<FilterNode>, d: int) -> bool {
    d >= 1 && forall|i: int| #![trigger nodes[i]] 0 <= i < nodes.len() ==> node_fits(nodes[i], d - 1)
}

/// A connective node fits exactly when its operand list can be read.
proof fn lemma_logical_fits(l: LogicalOperation, d: int)
    ensures
        node_fits(FilterNode::Logical(l), d) == nodes_fit(l.operands, d),
{
}

/// What it takes for `j` to be the wire form of a comparison node.
proof fn lemma_boolean_node_written_as(b: BooleanOperation, j: Json)
    ensures
        FilterNode::Boolean(b).written_as(j) == (field(j, "Left"@) matches Some(x) && b.written_as(x)),
{
}

/// What it takes for `j` to be the wire form of a connective node.
proof fn lemma_logical_node_written_as(l: LogicalOperation, j: Json)
    ensures
        FilterNode::Logical(l).written_as(j) == (field(j, "Left"@) is None && (field(j, "Right"@) matches Some(
            x,
        ) && l.written_as(x))),
{
}

/// What it takes for `j` to be the wire form of a connective.
proof fn lemma_logical_written_as(l: LogicalOperation, j: Json)
    ensures
        l.written_as(j) == ((field(j, "op"@) matches Some(o) && is_text(o, l.op.spec_name())) && (field(
            j,
            "operands"@,
        ) matches Some(a) && nodes_written_as(l.operands, a))),
{
}

/// `j` is a wire form of a list of nodes: an array of their forms.
pub open spec fn nodes_written_as(nodes: Vec<FilterNode>, j: Json) -> bool
    decreases nodes,
{
    &&& j is Array
    &&& j->Array_0.len() == nodes.len()
    &&& forall|i: int|
        0 <= i < nodes.len() ==> nodes[i].written_as(#[trigger] j->Array_0[i])
}

/// What it takes for `j` to be the wire form of a list of nodes.
proof fn lemma_nodes_written_as(nodes: Vec<FilterNode>, j: Json)
    ensures
        nodes_written_as(nodes, j) == (j is Array && j->Array_0.len() == nodes.len() && forall|i: int|
            0 <= i < nodes.len() ==> nodes[i].written_as(#[trigger] j->Array_0[i])),
{
}

/// The wire form of a list of nodes.
pub fn nodes_to_json(nodes: &Vec<FilterNode>) -> (r: Json)
    ensures
        nodes_written_as(*nodes, r),
    decreases nodes,
{
    let mut out: Vec<Json> = Vec::new();
    let mut i: usize = 0;
    while i < nodes.len()
        invariant
            0 <= i <= nodes.len(),
            out.len() == i,
            forall|k: int| 0 <= k < i ==> #[trigger] nodes[k].written_as(out[k]),
        decreases nodes.len() - i,
    {
        proof {
            vstd::std_specs::vec::axiom_vec_index_decreases(*nodes, i as int);
        }
        let j = nodes[i].to_json();
        out.push(j);
        i += 1;
    }
    let r = Json::Array(out);
    proof {
        lemma_nodes_written_as(*nodes, r);
    }
    r
}

/// Reads a list of nodes, each nesting at most `depth` levels.
pub fn nodes_from_json(j: &Json, depth: u64) -> (r: Result<Vec<FilterNode>, DecodeError>)
    ensures
        r matches Ok(nodes) ==> nodes_written_as(nodes, *j) && nodes_fit(nodes, depth as int),
        r is Err ==> forall|v: Vec<FilterNode>| nodes_fit(v, depth as int) ==> !nodes_written_as(v, *j),
    decreases depth, 0u64,
{
    if depth == 0 {
        return Err(DecodeError::InvalidShape);
    }
    match j {
        Json::Array(a) => {
            let mut out: Vec<FilterNode> = Vec::new();
            let mut i: usize = 0;
            while i < a.len()
                invariant
                    0 <= i <= a.len(),
                    out.len() == i,
                    forall|k: int| 0 <= k < i ==> #[trigger] out[k].written_as(a[k]),
                    forall|k: int| 0 <= k < i ==> node_fits(#[trigger] out[k], depth - 1),
                    depth > 0,
                    *j == Json::Array(*a),
                decreases a.len() - i,
            {
                match FilterNode::from_json(&a[i], depth - 1) {
                    Ok(n) => out.push(n),
                    Err(e) => {
                        proof {
                            assert forall|v: Vec<FilterNode>| nodes_fit(v, depth as int) implies !nodes_written_as(
                                v,
                                *j,
                            ) by {
                                lemma_nodes_written_as(v, *j);
                                if v.len() == a.len() {
                                    assert(node_fits(v[i as int], depth - 1));
                                    assert(!v[i as int].written_as(a[i as int]));
                                    assert(j->Array_0[i as int] == a[i as int]);
                                }
                            }
                        }
                        return Err(e);
                    },
                }
                i += 1;
            }
            proof {
                lemma_nodes_written_as(out, *j);
            }
            Ok(out)
        },
        _ => {
            proof {
                assert forall|v: Vec<FilterNode>| nodes_fit(v, depth as int) implies !nodes_written_as(v, *j) by {
                    lemma_nodes_written_as(v, *j);
                }
            }
            Err(DecodeError::InvalidShape)
        },
    }
}

impl LogicalOperation {
    /// `j` is a wire form of this connective: `{"op", "operands"}`.
    pub open spec fn written_as(self, j: Json) -> bool
        decreases self,
    {
        &&& field(j, "op"@) matches Some(o) && is_text(o, self.op.spec_name())
        &&& field(j, "operands"@) matches Some(a) && nodes_written_as(self.operands, a)
    }

    /// The wire form.
    pub fn to_json(&self) -> (r: Json)
        ensures
            self.written_as(r),
        decreases self,
    {
        let operands = nodes_to_json(&self.operands);
        let keys = vec!["op", "operands"];
        proof {
            reveal_strlit("op");
            reveal_strlit("operands");
            assert("op"@.len() == 2);
            assert("operands"@.len() == 8);
            assert(keys[0]@ == "op"@);
            assert(keys[1]@ == "operands"@);
        }
        let r = object(
            keys,
            vec![
                json_str(self.op.name()),
                operands,
            ],
        );
        proof {
            lemma_logical_written_as(*self, r);
        }
        r
    }

    /// Reads a connective whose operands nest at most `depth` levels.
    pub fn from_json(j: &Json, depth: u64) -> (r: Result<LogicalOperation, DecodeError>)
        ensures
            r matches Ok(l) ==> l.written_as(*j) && nodes_fit(l.operands, depth as int),
            r is Err ==> forall|l: LogicalOperation| nodes_fit(l.operands, depth as int) ==> !l.written_as(*j),
        decreases depth, 1u64,
    {
        let op = match get_field(j, "op") {
            Some(Json::Str(s)) => match LogicalOperator::from_name(s) {
                Some(x) => x,
                None => {
                    proof {
                        assert forall|l: LogicalOperation| #[trigger] l.written_as(*j) implies false by {
                            lemma_logical_written_as(l, *j);
                        }
                    }
                    return Err(DecodeError::InvalidShape);
                },
            },
            _ => {
                proof {
                    assert forall|l: LogicalOperation| #[trigger] l.written_as(*j) implies false by {
                        lemma_logical_written_as(l, *j);
                    }
                }
                return Err(DecodeError::InvalidShape);
            },
        };
        let operands_json = match get_field(j, "operands") {
            Some(x) => x,
            None => {
                proof {
                    assert forall|l: LogicalOperation| #[trigger] l.written_as(*j) implies false by {
                        lemma_logical_written_as(l, *j);
                    }
                }
                return Err(DecodeError::InvalidShape);
            },
        };
        let operands = match nodes_from_json(operands_json, depth) {
            Ok(v) => v,
            Err(e) => {
                proof {
                    assert forall|l: LogicalOperation| nodes_fit(l.operands, depth as int) implies !l.written_as(
                        *j,
                    ) by {
                        lemma_logical_written_as(l, *j);
                    }
                }
                return Err(e);
            },
        };
        let l = LogicalOperation { op, operands };
        proof {
            lemma_logical_written_as(l, *j);
        }
        Ok(l)
    }
}

/// `j` is a wire form of one sort key: `[direction, field]`.
pub open spec fn sort_key_written_as(k: (Ordering, String), j: Json) -> bool {
    &&& j is Array
    &&& j->Array_0.len() == 2
    &&& is_text(j->Array_0[0], k.0.spec_name())
    &&& j->Array_0[1] == Json::Str(k.1)
}

/// `j` is a wire form of a list of sort keys.
pub open spec fn sort_keys_written_as(keys: Vec<(Ordering, String)>, j: Json) -> bool {
    &&& j is Array
    &&& j->Array_0.len() == keys.len()
    &&& forall|i: int| 0 <= i < keys.len() ==> sort_key_written_as(keys[i], #[trigger] j->Array_0[i])
}

/// The wire form of a list of sort keys.
pub fn sort_keys_to_json(keys: &Vec<(Ordering, String)>) -> (r: Json)
    ensures
        sort_keys_written_as(*keys, r),
{
    let mut out: Vec<Json> = Vec::new();
    let mut i: usize = 0;
    while i < keys.len()
        invariant
            0 <= i <= keys.len(),
            out.len() == i,
            forall|k: int| 0 <= k < i ==> sort_key_written_as(keys[k], #[trigger] out[k]),
        decreases keys.len() - i,
    {
        let pair = vec![json_str(keys[i].0.name()), Json::Str(keys[i].1.clone())];
        out.push(Json::Array(pair));
        i += 1;
    }
    Json::Array(out)
}

/// Reads a list of sort keys; it fails only where no list is written as `j`.
pub fn sort_keys_from_json(j: &Json) -> (r: Result<Vec<(Ordering, String)>, DecodeError>)
    ensures
        r matches Ok(keys) ==> sort_keys_written_as(keys, *j),
        r is Err ==> forall|keys: Vec<(Ordering, String)>| !sort_keys_written_as(keys, *j),
{
    match j {
        Json::Array(a) => {
            let mut out: Vec<(Ordering, String)> = Vec::new();
            let mut i: usize = 0;
            while i < a.len()
                invariant
                    0 <= i <= a.len(),
                    out.len() == i,
                    *j == Json::Array(*a),
                    forall|k: int| 0 <= k < i ==> sort_key_written_as(out[k], #[trigger] a[k]),
                decreases a.len() - i,
            {
                let item = read_sort_key(&a[i]);
                match item {
                    Ok(k) => out.push(k),
                    Err(e) => {
                        proof {
                            assert forall|keys: Vec<(Ordering, String)>| !sort_keys_written_as(keys, *j) by {
                                if sort_keys_written_as(keys, *j) {
                                    assert(sort_key_written_as(keys[i as int], j->Array_0[i as int]));
                                }
                            }
                        }
                        return Err(e);
                    },
                }
                i += 1;
            }
            Ok(out)
        },
        _ => Err(DecodeError::InvalidShape),
    }
}

/// Reads one sort key; it fails only where no key is written as `j`.
fn read_sort_key(j: &Json) -> (r: Result<(Ordering, String), DecodeError>)
    ensures
        r matches Ok(k) ==> sort_key_written_as(k, *j),
        r is Err ==> forall|k: (Ordering, String)| !sort_key_written_as(k, *j),
{
    match j {
        Json::Array(p) => {
            if p.len() != 2 {
                return Err(DecodeError::InvalidShape);
            }
            let dir = match as_text(&p[0]) {
                Some(s) => match Ordering::from_name(s) {
                    Some(d) => d,
                    None => return Err(DecodeError::InvalidShape),
                },
                None => return Err(DecodeError::InvalidShape),
            };
            let name = string_of(&p[1])?;
            Ok((dir, name))
        },
        _ => Err(DecodeError::InvalidShape),
    }
}

/// Ordering and limit of a query's result, with every part optional.
#[derive(Clone, Debug, PartialEq, Eq, PartialOrd, Ord, Hash)]
pub struct Selector {
    pub limit: Option<u64>,
    pub ordering: Option<Vec<(Ordering, String)>>,
}

/// Ordering and limit of a query's result.
#[derive(Clone, Debug, PartialEq, Eq, PartialOrd, Ord, Hash)]
pub struct MetadataSelect {
    pub ordering: Vec<(Ordering, String)>,
    pub limit: u64,
}

impl MetadataSelect {
    /// `j` is a wire form of this selection: `{"ordering", "limit"}`.
    pub open spec fn written_as(self, j: Json) -> bool {
        &&& field(j, "ordering"@) matches Some(o) && sort_keys_written_as(self.ordering, o)
        &&& field(j, "limit"@) matches Some(l) && is_int(l, self.limit as int)
    }

    /// The wire form.
    pub fn to_json(&self) -> (r: Json)
        ensures
            self.written_as(r),
    {
        let keys = vec!["ordering", "limit"];
        proof {
            reveal_strlit("ordering");
            reveal_strlit("limit");
            assert("ordering"@.len() == 8);
            assert("limit"@.len() == 5);
            assert(keys[0]@ == "ordering"@);
            assert(keys[1]@ == "limit"@);
        }
        object(
            keys,
            vec![
                sort_keys_to_json(&self.ordering),
                json_u64(self.limit),
            ],
        )
    }

    /// Reads a selection; it fails only where no selection is written as `j`.
    pub fn from_json(j: &Json) -> (r: Result<MetadataSelect, DecodeError>)
        ensures
            r matches Ok(s) ==> s.written_as(*j),
            r is Err ==> forall|s: MetadataSelect| !s.written_as(*j),
    {
        let ordering = sort_keys_from_json(required(j, "ordering")?)?;
        let limit = u64_of(required(j, "limit")?)?;
        Ok(MetadataSelect { ordering, limit })
    }
}

/// Which messages a deferred send or a read applies to: the filter trees
/// that scope it and how its result is ordered and cut.
#[derive(Debug, PartialEq, Eq, PartialOrd, Ord, Hash)]
pub struct MetadataQuery {
    pub debug: String,
    pub filter: Vec<FilterNode>,
    pub select: Option<MetadataSelect>,
}

impl MetadataQuery {
    /// The filter trees nest at most [`MAX_FILTER_DEPTH`] levels, so that
    /// they can be read.
    pub open spec fn fits_depth(self) -> bool {
        nodes_fit(self.filter, MAX_FILTER_DEPTH as int)
    }

    /// `j` is a wire form of this query: `{"_debug", "filter", "select"}`.
    pub open spec fn written_as(self, j: Json) -> bool {
        &&& field(j, "_debug"@) == Some(Json::Str(self.debug))
        &&& field(j, "filter"@) matches Some(f) && nodes_written_as(self.filter, f)
        &&& match self.select {
            None => optional_field(j, "select"@) is None,
            Some(s) => optional_field(j, "select"@) matches Some(x) && s.written_as(x),
        }
    }

    /// The wire form; an absent selection is written as `null`.
    pub fn to_json(&self) -> (r: Json)
        ensures
            self.written_as(r),
    {
        let select = match &self.select {
            Some(s) => s.to_json(),
            None => Json::Null,
        };
        let keys = vec!["_debug", "filter", "select"];
        proof {
            reveal_strlit("_debug");
            reveal_strlit("filter");
            reveal_strlit("select");
            assert("_debug"@.len() == 6);
            assert("filter"@.len() == 6);
            assert("select"@.len() == 6);
            assert("_debug"@[0] == '_');
            assert("filter"@[0] == 'f');
            assert("select"@[0] == 's');
            assert(keys[0]@ == "_debug"@);
            assert(keys[1]@ == "filter"@);
            assert(keys[2]@ == "select"@);
        }
        object(
            keys,
            vec![
                Json::Str(self.debug.clone()),
                nodes_to_json(&self.filter),
                select,
            ],
        )
    }

    /// Reads a query; filter trees nest at most [`MAX_FILTER_DEPTH`] levels.
    pub fn from_json(j: &Json) -> (r: Result<MetadataQuery, DecodeError>)
        ensures
            r matches Ok(q) ==> q.written_as(*j) && q.fits_depth(),
            r is Err ==> forall|q: MetadataQuery| q.fits_depth() ==> !q.written_as(*j),
    {
        let debug = string_of(required(j, "_debug")?)?;
        let filter = nodes_from_json(required(j, "filter")?, MAX_FILTER_DEPTH)?;
        let select = match get_optional_field(j, "select") {
            Some(x) => Some(MetadataSelect::from_json(x)?),
            None => None,
        };
        Ok(MetadataQuery { debug, filter, select })
    }
}

/// The opcodes differ pairwise: each is told apart by its length or by
/// one character.
proof fn lemma_opcodes_distinct()
    ensures
        "HELLO"@.len() == 5,
        "AUTHENTICATE"@.len() == 12,
        "SERVER_MESSAGE"@.len() == 14,
        "SEND"@.len() == 4,
        "RECEIVE"@.len() == 7,
        "PING"@.len() == 4,
        "PONG"@.len() == 4,
        "CONFIGURE"@.len() == 9,
        "PING"@[0] == 'P',
        "PING"@[1] == 'I',
        "PONG"@[0] == 'P',
        "PONG"@[1] == 'O',
        "SEND"@[0] == 'S',
{
    reveal_strlit("HELLO");
    reveal_strlit("AUTHENTICATE");
    reveal_strlit("SERVER_MESSAGE");
    reveal_strlit("SEND");
    reveal_strlit("RECEIVE");
    reveal_strlit("PING");
    reveal_strlit("PONG");
    reveal_strlit("CONFIGURE");
}

/// `j` is a send whose method is known but whose settings have the shape of
/// neither alternative that the method allows.
pub open spec fn send_config_mismatch(j: Json) -> bool {
    &&& field(j, "opcode"@) matches Some(t) && is_text(t, "SEND"@)
    &&& field(j, "payload"@) matches Some(b) && (field(b, "method"@) matches Some(m) && exists|
        sm: SendMethod,
    | is_text(m, sm.spec_name()) && (field(b, "config"@) matches Some(c) && forall|sc: SendConfigs|
        !(sc.written_as(c) && sc.fits(sm))))
}

/// `j` is a configure request whose scope is known but whose settings have
/// the shape that the scope asks for in no way.
pub open spec fn configure_config_mismatch(j: Json) -> bool {
    &&& field(j, "opcode"@) matches Some(t) && is_text(t, "CONFIGURE"@)
    &&& field(j, "payload"@) matches Some(b) && (field(b, "scope"@) matches Some(s) && exists|
        cs: ConfigureScope,
    | is_text(s, cs.spec_name()) && (field(b, "config"@) matches Some(c) && forall|pc: ConfigurePayload|
        !(pc.written_as(c) && pc.fits(cs))))
}

/// One message of the protocol: an opcode and the payload that goes with it.
#[derive(Debug, PartialEq, Eq)]
pub enum Payload {
    Hello { session: String, heartbeat: u64 },
    Authenticate { auth: String, config: SessionConfig },
    ServerMessage { code: ResponseCodes, message: String, extra: Option<Json>, layer: String },
    Send { method: SendMethod, data: String, config: SendConfigs, query: MetadataQuery },
    Receive { nonce: Option<String>, data: String },
    Ping { nonce: String },
    Pong { nonce: String },
    Configure { scope: ConfigureScope, config: ConfigurePayload },
}

/// A send whose settings do not have the shape its method asks for.
#[derive(Clone, Copy, Debug, PartialEq, Eq, Hash, Structural)]
pub struct ValidationError;

impl Payload {
    /// The payload can be written and read back: an extra value is not
    /// `null` (which reads as absent), and the settings of a send or of a
    /// configure request have the shape that its method or scope asks for.
    pub open spec fn wf(self) -> bool {
        &&& self.shapes_fit()
        &&& !(self matches Payload::ServerMessage { extra: Some(Json::Null), .. })
    }

    /// The settings of a send or of a configure request have the shape that
    /// its method or scope asks for.
    pub open spec fn shapes_fit(self) -> bool {
        match self {
            Payload::Send { method, config, .. } => config.fits(method),
            Payload::Configure { scope, config } => config.fits(scope),
            _ => true,
        }
    }

    /// The filter trees of a send nest at most [`MAX_FILTER_DEPTH`] levels.
    pub open spec fn fits_depth(self) -> bool {
        match self {
            Payload::Send { query, .. } => query.fits_depth(),
            _ => true,
        }
    }

    /// The opcode of the payload.
    pub open spec fn spec_opcode(self) -> Seq<char> {
        match self {
            Payload::Hello { .. } => "HELLO"@,
            Payload::Authenticate { .. } => "AUTHENTICATE"@,
            Payload::ServerMessage { .. } => "SERVER_MESSAGE"@,
            Payload::Send { .. } => "SEND"@,
            Payload::Receive { .. } => "RECEIVE"@,
            Payload::Ping { .. } => "PING"@,
            Payload::Pong { .. } => "PONG"@,
            Payload::Configure { .. } => "CONFIGURE"@,
        }
    }

    /// `b` is a wire form of the fields of the payload.
    pub open spec fn body_written_as(self, b: Json) -> bool {
        match self {
            Payload::Hello { session, heartbeat } => {
                &&& field(b, "session"@) == Some(Json::Str(session))
                &&& field(b, "heartbeat"@) matches Some(h) && is_int(h, heartbeat as int)
            },
            Payload::Authenticate { auth, config } => {
                &&& field(b, "auth"@) == Some(Json::Str(auth))
                &&& field(b, "config"@) matches Some(c) && config.written_as(c)
            },
            Payload::ServerMessage { code, message, extra, layer } => {
                &&& field(b, "code"@) matches Some(c) && is_int(c, code.spec_code())
                &&& field(b, "message"@) == Some(Json::Str(message))
                &&& optional_field(b, "extra"@) == match extra {
                    Some(Json::Null) => None,
                    other => other,
                }
                &&& field(b, "layer"@) == Some(Json::Str(layer))
            },
            Payload::Send { method, data, config, query } => {
                &&& field(b, "method"@) matches Some(m) && is_text(m, method.spec_name())
                &&& field(b, "data"@) == Some(Json::Str(data))
                &&& field(b, "config"@) matches Some(c) && config.written_as(c)
                &&& config.fits(method)
                &&& field(b, "query"@) matches Some(q) && query.written_as(q)
            },
            Payload::Receive { nonce, data } => {
                &&& optional_text_is(optional_field(b, "nonce"@), nonce)
                &&& field(b, "data"@) == Some(Json::Str(data))
            },
            Payload::Ping { nonce } => field(b, "nonce"@) == Some(Json::Str(nonce)),
            Payload::Pong { nonce } => field(b, "nonce"@) == Some(Json::Str(nonce)),
            Payload::Configure { scope, config } => {
                &&& field(b, "scope"@) matches Some(s) && is_text(s, scope.spec_name())
                &&& field(b, "config"@) matches Some(c) && config.written_as(c)
                &&& config.fits(scope)
            },
        }
    }

    /// `j` is a wire form of the payload: `{"opcode", "payload"}`, the
    /// opcode naming the variant and the payload holding its fields.
    pub open spec fn written_as(self, j: Json) -> bool {
        &&& field(j, "opcode"@) matches Some(t) && is_text(t, self.spec_opcode())
        &&& field(j, "payload"@) matches Some(b) && self.body_written_as(b)
    }

    /// A send, built only when the settings have the shape that `method`
    /// asks for.
    pub fn send(method: SendMethod, data: String, config: SendConfigs, query: MetadataQuery) -> (r: Result<
        Payload,
        ValidationError,
    >)
        ensures
            config.fits(method) ==> r == Ok::<Payload, ValidationError>(
                Payload::Send { method, data, config, query },
            ),
            !config.fits(method) ==> r == Err::<Payload, ValidationError>(ValidationError),
    {
        let fits = match &config {
            SendConfigs::Send(_) => method == SendMethod::Immediate,
            SendConfigs::SendLater(_) => method == SendMethod::Later,
        };
        if fits {
            Ok(Payload::Send { method, data, config, query })
        } else {
            Err(ValidationError)
        }
    }

    /// A configure request, built only when the settings have the shape
    /// that `scope` asks for.
    pub fn configure(scope: ConfigureScope, config: ConfigurePayload) -> (r: Result<Payload, ValidationError>)
        ensures
            config.fits(scope) ==> r == Ok::<Payload, ValidationError>(Payload::Configure { scope, config }),
            !config.fits(scope) ==> r == Err::<Payload, ValidationError>(ValidationError),
    {
        if config.matches_scope(scope) {
            Ok(Payload::Configure { scope, config })
        } else {
            Err(ValidationError)
        }
    }

    /// The wire form of a payload whose settings fit its method or scope; an
    /// extra value of `null` is written as absent.
    pub fn to_json(self) -> (r: Json)
        requires
            self.shapes_fit(),
        ensures
            self.written_as(r),
    {
        let ghost whole = self;
        let tag = match &self {
            Payload::Hello { .. } => "HELLO",
            Payload::Authenticate { .. } => "AUTHENTICATE",
            Payload::ServerMessage { .. } => "SERVER_MESSAGE",
            Payload::Send { .. } => "SEND",
            Payload::Receive { .. } => "RECEIVE",
            Payload::Ping { .. } => "PING",
            Payload::Pong { .. } => "PONG",
            Payload::Configure { .. } => "CONFIGURE",
        };
        let body = match self {
            Payload::Hello { session, heartbeat } => {
                let keys = vec!["session", "heartbeat"];
                proof {
                    reveal_strlit("session");
                    reveal_strlit("heartbeat");
                    assert("session"@.len() == 7);
                    assert("heartbeat"@.len() == 9);
                    assert(keys[0]@ == "session"@);
                    assert(keys[1]@ == "heartbeat"@);
                }
                object(
                    keys,
                    vec![
                        Json::Str(session),
                        json_u64(heartbeat),
                    ],
                )
            },
            Payload::Authenticate { auth, config } => {
                let keys = vec!["auth", "config"];
                proof {
                    reveal_strlit("auth");
                    reveal_strlit("config");
                    assert("auth"@.len() == 4);
                    assert("config"@.len() == 6);
                    assert(keys[0]@ == "auth"@);
                    assert(keys[1]@ == "config"@);
                }
                object(
                    keys,
                    vec![
                        Json::Str(auth),
                        config.to_json(),
                    ],
                )
            },
            Payload::ServerMessage { code, message, extra, layer } => {
                let extra = match extra {
                    Some(x) => x,
                    None => Json::Null,
                };
                let keys = vec!["code", "message", "extra", "layer"];
                proof {
                    reveal_strlit("code");
                    reveal_strlit("message");
                    reveal_strlit("extra");
                    reveal_strlit("layer");
                    assert("code"@.len() == 4);
                    assert("message"@.len() == 7);
                    assert("extra"@.len() == 5);
                    assert("layer"@.len() == 5);
                    assert("extra"@[0] == 'e');
                    assert("layer"@[0] == 'l');
                    assert(keys[0]@ == "code"@);
                    assert(keys[1]@ == "message"@);
                    assert(keys[2]@ == "extra"@);
                    assert(keys[3]@ == "layer"@);
                }
                object(
                    keys,
                    vec![
                        Json::Number(Some(code.code() as i128)),
                        Json::Str(message),
                        extra,
                        Json::Str(layer),
                    ],
                )
            },
            Payload::Send { method, data, config, query } => {
                let keys = vec!["method", "data", "config", "query"];
                proof {
                    reveal_strlit("method");
                    reveal_strlit("data");
                    reveal_strlit("config");
                    reveal_strlit("query");
                    assert("method"@.len() == 6);
                    assert("data"@.len() == 4);
                    assert("config"@.len() == 6);
                    assert("query"@.len() == 5);
                    assert("config"@[0] == 'c');
                    assert("method"@[0] == 'm');
                    assert(keys[0]@ == "method"@);
                    assert(keys[1]@ == "data"@);
                    assert(keys[2]@ == "config"@);
                    assert(keys[3]@ == "query"@);
                }
                object(
                    keys,
                    vec![
                        json_str(method.name()),
                        Json::Str(data),
                        config.to_json(),
                        query.to_json(),
                    ],
                )
            },
            Payload::Receive { nonce, data } => {
                let nonce = match nonce {
                    Some(n) => Json::Str(n),
                    None => Json::Null,
                };
                let keys = vec!["nonce", "data"];
                proof {
                    reveal_strlit("nonce");
                    reveal_strlit("data");
                    assert("nonce"@.len() == 5);
                    assert("data"@.len() == 4);
                    assert(keys[0]@ == "nonce"@);
                    assert(keys[1]@ == "data"@);
                }
                object(
                    keys,
                    vec![
                        nonce,
                        Json::Str(data),
                    ],
                )
            },
            Payload::Ping { nonce } => {
                let keys = vec!["nonce"];
                proof {
                    reveal_strlit("nonce");
                    assert("nonce"@.len() == 5);
                    assert(keys[0]@ == "nonce"@);
                }
                object(
                    keys,
                    vec![
                        Json::Str(nonce),
                    ],
                )
            },
            Payload::Pong { nonce } => {
                let keys = vec!["nonce"];
                proof {
                    reveal_strlit("nonce");
                    assert("nonce"@.len() == 5);
                    assert(keys[0]@ == "nonce"@);
                }
                object(
                    keys,
                    vec![
                        Json::Str(nonce),
                    ],
                )
            },
            Payload::Configure { scope, config } => {
                let keys = vec!["scope", "config"];
                proof {
                    reveal_strlit("scope");
                    reveal_strlit("config");
                    assert("scope"@.len() == 5);
                    assert("config"@.len() == 6);
                    assert(keys[0]@ == "scope"@);
                    assert(keys[1]@ == "config"@);
                }
                object(
                    keys,
                    vec![
                        json_str(scope.name()),
                        config.to_json(),
                    ],
                )
            },
        };
        proof {
            lemma_opcodes_distinct();
        }
        let keys = vec!["opcode", "payload"];
        proof {
            reveal_strlit("opcode");
            reveal_strlit("payload");
            assert("opcode"@.len() == 6);
            assert("payload"@.len() == 7);
            assert(keys[0]@ == "opcode"@);
            assert(keys[1]@ == "payload"@);
        }
        object(
            keys,
            vec![
                json_str(tag),
                body,
            ],
        )
    }

    /// Reads a payload. Reading fails only where no payload whose filter
    /// trees fit [`MAX_FILTER_DEPTH`] is written as `j`; a send or configure
    /// request whose settings do not have the shape its method or scope asks
    /// for is refused as an ambiguous or invalid union.
    pub fn from_json(j: Json) -> (r: Result<Payload, DecodeError>)
        ensures
            r matches Ok(p) ==> p.written_as(j) && p.wf() && p.fits_depth(),
            r is Err ==> forall|p: Payload| p.fits_depth() ==> !p.written_as(j),
            send_config_mismatch(j) ==> r == Err::<Payload, DecodeError>(DecodeError::AmbiguousOrInvalidUnion),
            configure_config_mismatch(j) ==> r == Err::<Payload, DecodeError>(
                DecodeError::AmbiguousOrInvalidUnion,
            ),
    {
        let opcode = match get_field(&j, "opcode") {
            Some(Json::Str(s)) => s.clone(),
            _ => return Err(DecodeError::InvalidShape),
        };
        let body = match take_field(j, "payload") {
            Some(b) => b,
            None => return Err(DecodeError::InvalidShape),
        };
        proof {
            lemma_opcodes_distinct();
        }
        if str_is(&opcode, "HELLO") {
            let session = string_of(required(&body, "session")?)?;
            let heartbeat = u64_of(required(&body, "heartbeat")?)?;
            Ok(Payload::Hello { session, heartbeat })
        } else if str_is(&opcode, "AUTHENTICATE") {
            let auth = string_of(required(&body, "auth")?)?;
            let config = SessionConfig::from_json(required(&body, "config")?)?;
            Ok(Payload::Authenticate { auth, config })
        } else if str_is(&opcode, "SERVER_MESSAGE") {
            let code = match required(&body, "code")? {
                Json::Number(Some(n)) => match ResponseCodes::from_code(*n) {
                    Some(c) => c,
                    None => return Err(DecodeError::InvalidShape),
                },
                _ => return Err(DecodeError::InvalidShape),
            };
            let message = string_of(required(&body, "message")?)?;
            let layer = string_of(required(&body, "layer")?)?;
            let extra = match take_field(body, "extra") {
                Some(Json::Null) => None,
                other => other,
            };
            Ok(Payload::ServerMessage { code, message, extra, layer })
        } else if str_is(&opcode, "SEND") {
            proof {
                reveal_strlit("immediate");
                reveal_strlit("later");
                assert("immediate"@.len() == 9);
                assert("later"@.len() == 5);
            }
            let method = match as_text(required(&body, "method")?) {
                Some(s) => match SendMethod::from_name(s) {
                    Some(m) => m,
                    None => return Err(DecodeError::InvalidShape),
                },
                None => return Err(DecodeError::InvalidShape),
            };
            let config = SendConfigs::from_json(required(&body, "config")?, method)?;
            let data = string_of(required(&body, "data")?)?;
            let query = MetadataQuery::from_json(required(&body, "query")?)?;
            Ok(Payload::Send { method, data, config, query })
        } else if str_is(&opcode, "RECEIVE") {
            let nonce = optional_string_field(&body, "nonce")?;
            let data = string_of(required(&body, "data")?)?;
            Ok(Payload::Receive { nonce, data })
        } else if str_is(&opcode, "PING") {
            let nonce = string_of(required(&body, "nonce")?)?;
            Ok(Payload::Ping { nonce })
        } else if str_is(&opcode, "PONG") {
            let nonce = string_of(required(&body, "nonce")?)?;
            Ok(Payload::Pong { nonce })
        } else if str_is(&opcode, "CONFIGURE") {
            let scope = match as_text(required(&body, "scope")?) {
                Some(s) => match ConfigureScope::from_name(s) {
                    Some(x) => x,
                    None => return Err(DecodeError::InvalidShape),
                },
                None => return Err(DecodeError::InvalidShape),
            };
            proof {
                reveal_strlit("session");
                reveal_strlit("group");
                reveal_strlit("global");
                assert("session"@.len() == 7);
                assert("group"@.len() == 5);
                assert("global"@.len() == 6);
            }
            let config = ConfigurePayload::from_json(required(&body, "config")?, scope)?;
            Ok(Payload::Configure { scope, config })
        } else {
            Err(DecodeError::InvalidShape)
        }
    }

    /// The JSON text of a payload whose settings fit its method or scope:
    /// serde_json's rendering of a wire form of it.
    pub fn encode(self) -> (r: String)
        requires
            self.shapes_fit(),
        ensures
            exists|j: Json| self.written_as(j) && r@ == json_render(j),
    {
        let ghost whole = self;
        let j = self.to_json();
        let r = render_json(&j);
        assert(whole.written_as(j));
        r
    }

    /// `p` is what `text` holds: the text parses, and `p` is well formed
    /// and read from the document.
    pub open spec fn decoded_from(p: Payload, text: Seq<char>) -> bool {
        json_parse(text) matches Some(j) && p.written_as(j) && p.wf()
    }

    /// Reads a payload from JSON text.
    pub fn decode(text: &str) -> (r: Result<Payload, DecodeError>)
        ensures
            json_parse(text@) is None ==> r == Err::<Payload, DecodeError>(DecodeError::NotJson),
            r matches Ok(p) ==> json_parse(text@) matches Some(j) && p.written_as(j) && p.wf()
                && p.fits_depth(),
            r is Err ==> (json_parse(text@) matches Some(j) ==> forall|p: Payload|
                p.fits_depth() ==> !p.written_as(j)),
            json_parse(text@) matches Some(j) && send_config_mismatch(j) ==> r == Err::<
                Payload,
                DecodeError,
            >(DecodeError::AmbiguousOrInvalidUnion),
            json_parse(text@) matches Some(j) && configure_config_mismatch(j) ==> r == Err::<
                Payload,
                DecodeError,
            >(DecodeError::AmbiguousOrInvalidUnion),
    {
        match parse_json(text) {
            Some(j) => Payload::from_json(j),
            None => Err(DecodeError::NotJson),
        }
    }
}

/// Decoding what was encoded gives the payload back: a result that meets
/// what [`Payload::from_json`] promises for the wire form `j` of a readable
/// payload `p` is `Ok(p)`; for a send, whose query holds lists, it is a send
/// with the same method, data, settings and debug text, written as `j` too.
pub proof fn lemma_round_trip(p: Payload, j: Json, r: Result<Payload, DecodeError>)
    requires
        p.written_as(j),
        p.wf(),
        p.fits_depth(),
        r matches Ok(q) ==> q.written_as(j) && q.wf(),
        r is Err ==> forall|x: Payload| x.fits_depth() ==> !x.written_as(j),
    ensures
        r is Ok,
        !(p is Send) ==> r == Ok::<Payload, DecodeError>(p),
        p is Send ==> (r->Ok_0 matches Payload::Send { method, data, config, query } && method
            == p->Send_method && data == p->Send_data && config == p->Send_config && query.debug
            == p->Send_query.debug),
{
    if let Ok(q) = r {
        if p is Send {
            lemma_send_written_as_unique(p, q, j);
        } else {
            lemma_written_as_unique(p, q, j);
        }
    }
}

/// A document that is the wire form of a send fixes the send's method,
/// data, settings and debug text.
pub proof fn lemma_send_written_as_unique(p: Payload, q: Payload, j: Json)
    requires
        p.written_as(j),
        q.written_as(j),
        p is Send,
    ensures
        q matches Payload::Send { method, data, config, query } && method == p->Send_method && data
            == p->Send_data && config == p->Send_config && query.debug == p->Send_query.debug,
{
    lemma_opcodes_distinct();
    reveal_strlit("immediate");
    reveal_strlit("later");
    assert("immediate"@.len() == 9);
    assert("later"@.len() == 5);
}

/// Reading back what was written: a document is the wire form of at most
/// one payload (sends aside, whose query holds lists), so decoding the
/// encoding of a payload gives that payload again.
pub proof fn lemma_written_as_unique(p: Payload, q: Payload, j: Json)
    requires
        p.written_as(j),
        q.written_as(j),
        p.wf(),
        q.wf(),
        !(p is Send),
    ensures
        p == q,
{
    lemma_opcodes_distinct();
    reveal_strlit("json");
    reveal_strlit("msgpack");
    assert("json"@.len() == 4);
    assert("msgpack"@.len() == 7);
    reveal_strlit("none");
    reveal_strlit("zstd");
    assert("none"@.len() == 4);
    assert("zstd"@.len() == 4);
    assert("none"@[0] == 'n');
    assert("zstd"@[0] == 'z');
    reveal_strlit("None");
    reveal_strlit("Datacenter");
    reveal_strlit("Region");
    assert("None"@.len() == 4);
    assert("Datacenter"@.len() == 10);
    assert("Region"@.len() == 6);
    reveal_strlit("session");
    reveal_strlit("group");
    reveal_strlit("global");
    assert("session"@.len() == 7);
    assert("group"@.len() == 5);
    assert("global"@.len() == 6);
    if p is ServerMessage && q is ServerMessage {
        lemma_code_injective(p->ServerMessage_code, q->ServerMessage_code);
    }
}

} // verus!
