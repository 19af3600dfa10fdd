//! The request and reply envelopes of the control protocol.
//!
//! A request is `{"cmd":<name>}` or `{"cmd":<name>,"args":{...}}`; a reply
//! is a JSON object whose integer `status` member says whether the service
//! did what was asked (`200`) or not.
use vstd::prelude::*;
use crate::json::{
    Field, FieldView, Members, flat_members, has_no_newline, key_less, keys_ascending, members_view,
    nested_members, object_members_of, object_text, parse_object, write_object,
};
use crate::number::{i64_literal, parse_i64};

verus! {

/// The status value that marks success.
pub const STATUS_OK: i64 = 200;

/// One command to the service, with its arguments.
pub enum Command {
    TunnelConnect,
    TunnelDisconnect,
    TunnelGetStatus,
    GetEnrollmentCount,
    GetBandName,
    GetActiveBand,
    GetActiveConf,
    GetBandAdmin,
    GetEnrollmentList,
    Enroll { enrollment_token: String, device_name: String, enrollment_secret: Option<String> },
    SaveBandAdmin { band_uuid: String, jwt: String },
    Unenroll { band_uuid: String },
    ChangeEnrollment { band_uuid: String },
}

/// The wire name of a command.
pub open spec fn command_name(c: Command) -> Seq<char> {
    match c {
        Command::TunnelConnect => "tunnel_connect"@,
        Command::TunnelDisconnect => "tunnel_disconnect"@,
        Command::TunnelGetStatus => "tunnel_get_status"@,
        Command::GetEnrollmentCount => "get_enrollment_count"@,
        Command::GetBandName => "get_band_name"@,
        Command::GetActiveBand => "get_active_band"@,
        Command::GetActiveConf => "get_active_conf"@,
        Command::GetBandAdmin => "get_band_admin"@,
        Command::GetEnrollmentList => "get_enrollment_list"@,
        Command::Enroll { .. } => "enroll"@,
        Command::SaveBandAdmin { .. } => "save_band_admin"@,
        Command::Unenroll { .. } => "unenroll"@,
        Command::ChangeEnrollment { .. } => "change_enrollment"@,
    }
}

/// The members of a command's `args` object, keys in ascending order; `None`
/// for a command without arguments. An absent enrollment secret is left out.
pub open spec fn command_args(c: Command) -> Option<Members> {
    match c {
        Command::Enroll { enrollment_token, device_name, enrollment_secret } => {
            let token = ("enrollment_token"@, FieldView::Text(enrollment_token@));
            let device = seq![("device_name"@, FieldView::Text(device_name@))];
            match enrollment_secret {
                Some(s) => Some(
                    device.push(("enrollment_secret"@, FieldView::Text(s@))).push(token),
                ),
                None => Some(device.push(token)),
            }
        },
        Command::SaveBandAdmin { band_uuid, jwt } => Some(
            seq![("band_uuid"@, FieldView::Text(band_uuid@)), ("jwt"@, FieldView::Text(jwt@))],
        ),
        Command::Unenroll { band_uuid } => Some(seq![("band_uuid"@, FieldView::Text(band_uuid@))]),
        Command::ChangeEnrollment { band_uuid } => Some(
            seq![("band_uuid"@, FieldView::Text(band_uuid@))],
        ),
        _ => None,
    }
}

/// The members of the request envelope for `c`, keys in ascending order.
pub open spec fn request_members(c: Command) -> Members {
    let cmd = ("cmd"@, FieldView::Text(command_name(c)));
    match command_args(c) {
        Some(a) => seq![("args"@, FieldView::Compound(object_text(a))), cmd],
        None => seq![cmd],
    }
}

/// The request text for `c`.
pub open spec fn request_text(c: Command) -> Seq<char> {
    object_text(request_members(c))
}

impl Command {
    /// The wire name of this command.
    pub fn name(&self) -> (r: &'static str)
        ensures
            r@ == command_name(*self),
    {
        match self {
            Command::TunnelConnect => "tunnel_connect",
            Command::TunnelDisconnect => "tunnel_disconnect",
            Command::TunnelGetStatus => "tunnel_get_status",
            Command::GetEnrollmentCount => "get_enrollment_count",
            Command::GetBandName => "get_band_name",
            Command::GetActiveBand => "get_active_band",
            Command::GetActiveConf => "get_active_conf",
            Command::GetBandAdmin => "get_band_admin",
            Command::GetEnrollmentList => "get_enrollment_list",
            Command::Enroll { .. } => "enroll",
            Command::SaveBandAdmin { .. } => "save_band_admin",
            Command::Unenroll { .. } => "unenroll",
            Command::ChangeEnrollment { .. } => "change_enrollment",
        }
    }

    /// The members of this command's `args` object, if it takes any.
    pub fn args(&self) -> (r: Option<Vec<(String, Field)>>)
        ensures
            r matches Some(v) ==> command_args(*self) == Some(members_view(v@)),
            r is None <==> command_args(*self) is None,
    {
        match self {
            Command::Enroll { enrollment_token, device_name, enrollment_secret } => {
                let mut v: Vec<(String, Field)> = Vec::new();
                v.push((String::from_str("device_name"), Field::Text(device_name.clone())));
                match enrollment_secret {
                    Some(s) => {
                        v.push((String::from_str("enrollment_secret"), Field::Text(s.clone())));
                    },
                    None => {},
                }
                v.push(
                    (String::from_str("enrollment_token"), Field::Text(enrollment_token.clone())),
                );
                assert(command_args(*self) == Some(members_view(v@)));
                Some(v)
            },
            Command::SaveBandAdmin { band_uuid, jwt } => {
                let mut v: Vec<(String, Field)> = Vec::new();
                v.push((String::from_str("band_uuid"), Field::Text(band_uuid.clone())));
                v.push((String::from_str("jwt"), Field::Text(jwt.clone())));
                assert(command_args(*self) == Some(members_view(v@)));
                Some(v)
            },
            Command::Unenroll { band_uuid } | Command::ChangeEnrollment { band_uuid } => {
                let mut v: Vec<(String, Field)> = Vec::new();
                v.push((String::from_str("band_uuid"), Field::Text(band_uuid.clone())));
                assert(command_args(*self) == Some(members_view(v@)));
                Some(v)
            },
            _ => None,
        }
    }

    /// The request envelope for this command, as compact JSON text.
    pub fn encode(&self) -> (r: String)
        ensures
            r@ == request_text(*self),
            has_no_newline(r@),
    {
        let cmd = (String::from_str("cmd"), Field::Text(String::from_str(self.name())));
        let mut v: Vec<(String, Field)> = Vec::new();
        match self.args() {
            Some(a) => {
                let inner = write_object(&a);
                v.push((String::from_str("args"), Field::Compound(inner)));
            },
            None => {},
        }
        v.push(cmd);
        assert(members_view(v@) =~= request_members(*self));
        write_object(&v)
    }
}

/// The value of the first member named `key`.
pub open spec fn lookup(ms: Members, key: Seq<char>) -> Option<FieldView>
    decreases ms.len(),
{
    if ms.len() == 0 {
        None
    } else if ms[0].0 == key {
        Some(ms[0].1)
    } else {
        lookup(ms.drop_first(), key)
    }
}

/// The `status` of a reply with members `ms`: an integer that fits in `i64`.
pub open spec fn status_of(ms: Members) -> Option<i64> {
    match lookup(ms, "status"@) {
        Some(FieldView::Number(t)) => i64_literal(t),
        _ => None,
    }
}

/// The value of the first member of `ms` named `key`.
pub fn find<'a>(ms: &'a Vec<(String, Field)>, key: &String) -> (r: Option<&'a Field>)
    ensures
        r matches Some(f) ==> lookup(members_view(ms@), key@) == Some(f@),
        r is None <==> lookup(members_view(ms@), key@) is None,
{
    let ghost all = members_view(ms@);
    assert(all.skip(0) =~= all);
    let mut i: usize = 0;
    while i < ms.len()
        invariant
            0 <= i <= ms.len(),
            all == members_view(ms@),
            lookup(all, key@) == lookup(all.skip(i as int), key@),
        decreases ms.len() - i,
    {
        assert(all.skip(i as int).drop_first() =~= all.skip(i as int + 1));
        if ms[i].0 == *key {
            return Some(&ms[i].1);
        }
        i = i + 1;
    }
    None
}

/// Why a reply could not be read.
#[derive(PartialEq, Eq, Structural, Clone, Copy, Debug)]
pub enum ProtocolError {
    /// The reply is not a JSON object.
    NotAnObject,
    /// The reply has no integer `status` member.
    NoStatus,
}

/// The text of a protocol error's description.
pub open spec fn protocol_error_text(p: ProtocolError) -> Seq<char> {
    match p {
        ProtocolError::NotAnObject => "reply is not a JSON object"@,
        ProtocolError::NoStatus => "reply has no integer status"@,
    }
}

impl ProtocolError {
    /// A description of the error, for diagnostics.
    pub fn message(&self) -> (r: String)
        ensures
            r@ == protocol_error_text(*self),
            r@.len() > 0,
    {
        match self {
            ProtocolError::NotAnObject => {
                proof { reveal_strlit("reply is not a JSON object"); }
                String::from_str("reply is not a JSON object")
            },
            ProtocolError::NoStatus => {
                proof { reveal_strlit("reply has no integer status"); }
                String::from_str("reply has no integer status")
            },
        }
    }
}

/// A decoded reply: its status and all its members.
pub struct Reply {
    pub status: i64,
    pub members: Vec<(String, Field)>,
}

impl Reply {
    /// Whether the service reported success.
    pub open spec fn spec_is_ok(&self) -> bool {
        self.status == STATUS_OK
    }

    /// Whether the service reported success.
    pub fn is_ok(&self) -> (r: bool)
        ensures
            r == self.spec_is_ok(),
    {
        self.status == STATUS_OK
    }
}

/// What decoding `text` gives: the reply's members and status, or the error.
pub open spec fn decoded(text: Seq<char>) -> Result<(i64, Members), ProtocolError> {
    match object_members_of(text) {
        None => Err(ProtocolError::NotAnObject),
        Some(ms) => match status_of(ms) {
            None => Err(ProtocolError::NoStatus),
            Some(s) => Ok((s, ms)),
        },
    }
}

/// Decodes a reply: a JSON object with an integer `status`.
pub fn decode_reply(text: &str) -> (r: Result<Reply, ProtocolError>)
    ensures
        r matches Ok(rep) ==> decoded(text@) == Ok::<_, ProtocolError>(
            (rep.status, members_view(rep.members@)),
        ),
        r matches Err(e) ==> decoded(text@) == Err::<(i64, Members), _>(e),
{
    let members = match parse_object(text) {
        Some(ms) => ms,
        None => return Err(ProtocolError::NotAnObject),
    };
    let key = String::from_str("status");
    proof { reveal_strlit("status"); }
    let status = match find(&members, &key) {
        Some(Field::Number(t)) => parse_i64(t.as_str()),
        _ => None,
    };
    match status {
        Some(s) => Ok(Reply { status: s, members }),
        None => Err(ProtocolError::NoStatus),
    }
}

proof fn lemma_names_distinct(c: Command)
    ensures
        command_name(c) == "tunnel_connect"@ ==> c is TunnelConnect,
        command_name(c) == "tunnel_disconnect"@ ==> c is TunnelDisconnect,
        command_name(c) == "tunnel_get_status"@ ==> c is TunnelGetStatus,
        command_name(c) == "get_enrollment_count"@ ==> c is GetEnrollmentCount,
        command_name(c) == "get_band_name"@ ==> c is GetBandName,
        command_name(c) == "get_active_band"@ ==> c is GetActiveBand,
        command_name(c) == "get_active_conf"@ ==> c is GetActiveConf,
        command_name(c) == "get_band_admin"@ ==> c is GetBandAdmin,
        command_name(c) == "get_enrollment_list"@ ==> c is GetEnrollmentList,
        command_name(c) == "enroll"@ ==> c is Enroll,
        command_name(c) == "save_band_admin"@ ==> c is SaveBandAdmin,
        command_name(c) == "unenroll"@ ==> c is Unenroll,
        command_name(c) == "change_enrollment"@ ==> c is ChangeEnrollment,
{
    reveal_strlit("tunnel_connect");
    reveal_strlit("tunnel_disconnect");
    reveal_strlit("tunnel_get_status");
    reveal_strlit("get_enrollment_count");
    reveal_strlit("get_band_name");
    reveal_strlit("get_active_band");
    reveal_strlit("get_active_conf");
    reveal_strlit("get_band_admin");
    reveal_strlit("get_enrollment_list");
    reveal_strlit("enroll");
    reveal_strlit("save_band_admin");
    reveal_strlit("unenroll");
    reveal_strlit("change_enrollment");
    assert("tunnel_connect"@.len() == 14);
    assert("tunnel_disconnect"@.len() == 17);
    assert("tunnel_get_status"@.len() == 17);
    assert("get_enrollment_count"@.len() == 20);
    assert("get_band_name"@.len() == 13);
    assert("get_active_band"@.len() == 15);
    assert("get_active_conf"@.len() == 15);
    assert("get_band_admin"@.len() == 14);
    assert("get_enrollment_list"@.len() == 19);
    assert("enroll"@.len() == 6);
    assert("save_band_admin"@.len() == 15);
    assert("unenroll"@.len() == 8);
    assert("change_enrollment"@.len() == 17);
    assert("tunnel_disconnect"@[7] != "tunnel_get_status"@[7]);
    assert("tunnel_disconnect"@[0] != "change_enrollment"@[0]);
    assert("tunnel_get_status"@[0] != "change_enrollment"@[0]);
    assert("get_active_band"@[11] != "get_active_conf"@[11]);
    assert("get_active_band"@[0] != "save_band_admin"@[0]);
    assert("get_active_conf"@[0] != "save_band_admin"@[0]);
    assert("tunnel_connect"@[0] != "get_band_admin"@[0]);
}

/// What the envelope of `c` is made of: its members are as serde_json writes
/// them, and `cmd` and `args` are found where they stand.
proof fn lemma_request_members(c: Command)
    ensures
        nested_members(request_members(c)),
        lookup(request_members(c), "cmd"@) == Some(FieldView::Text(command_name(c))),
        match command_args(c) {
            Some(a) => {
                &&& lookup(request_members(c), "args"@) == Some(FieldView::Compound(object_text(a)))
                &&& nested_members(a)
            },
            None => true,
        },
{
    reveal_strlit("cmd");
    reveal_strlit("args");
    reveal_strlit("device_name");
    reveal_strlit("enrollment_secret");
    reveal_strlit("enrollment_token");
    reveal_strlit("band_uuid");
    reveal_strlit("jwt");
    assert("cmd"@.len() == 3);
    assert("args"@.len() == 4);
    assert("device_name"@.len() == 11);
    assert("enrollment_secret"@.len() == 17);
    assert("enrollment_token"@.len() == 16);
    assert("band_uuid"@.len() == 9);
    assert("jwt"@.len() == 3);
    reveal_with_fuel(lookup, 3);
    let ms = request_members(c);
    assert(key_less("args"@, "cmd"@)) by {
        assert("args"@.take(0) == "cmd"@.take(0));
    }
    assert(key_less("device_name"@, "enrollment_secret"@)) by {
        assert("device_name"@.take(0) == "enrollment_secret"@.take(0));
    }
    assert(key_less("device_name"@, "enrollment_token"@)) by {
        assert("device_name"@.take(0) == "enrollment_token"@.take(0));
    }
    assert(key_less("enrollment_secret"@, "enrollment_token"@)) by {
        assert("enrollment_secret"@.take(11) =~= "enrollment_token"@.take(11));
    }
    assert(key_less("band_uuid"@, "jwt"@)) by {
        assert("band_uuid"@.take(0) == "jwt"@.take(0));
    }
    match command_args(c) {
        Some(a) => {
            assert(keys_ascending(a));
            assert(flat_members(a));
            assert(ms[0].1 == FieldView::Compound(object_text(a)));
            assert(keys_ascending(ms));
        },
        None => {},
    }
}

/// The string member `key` of `ms`, if it has one.
fn text_member(ms: &Vec<(String, Field)>, key: &str) -> (r: Option<String>)
    ensures
        r matches Some(s) ==> lookup(members_view(ms@), key@) == Some(FieldView::Text(s@)),
        r is None ==> !(lookup(members_view(ms@), key@) matches Some(FieldView::Text(_))),
{
    let k = String::from_str(key);
    match find(ms, &k) {
        Some(Field::Text(s)) => Some(s.clone()),
        _ => None,
    }
}

/// The command that a request envelope asks for, with its arguments.
pub open spec fn request_reads_as(text: Seq<char>, d: Command) -> bool {
    &&& object_members_of(text) matches Some(ms)
    &&& lookup(ms, "cmd"@) == Some(FieldView::Text(command_name(d)))
    &&& match command_args(d) {
        Some(a) => lookup(ms, "args"@) matches Some(FieldView::Compound(t))
            && object_members_of(t) matches Some(am)
            && forall|i: int| 0 <= i < a.len() ==> lookup(am, #[trigger] a[i].0) == Some(a[i].1),
        None => true,
    }
}

/// `r` gives back every command whose envelope has members `ms` and name
/// `name`.
spec fn gives_back(ms: Members, name: Seq<char>, r: Option<Command>) -> bool {
    forall|c: Command|
        #[trigger] request_members(c) == ms && name == command_name(c) ==> (r matches Some(d)
            && command_name(d) == command_name(c) && command_args(d) == command_args(c))
}

/// `d` has name `name` and finds its arguments in the `args` of `ms`.
spec fn named_in(ms: Members, name: Seq<char>, d: Command) -> bool {
    &&& command_name(d) == name
    &&& match command_args(d) {
        Some(a) => lookup(ms, "args"@) matches Some(FieldView::Compound(t))
            && object_members_of(t) matches Some(am)
            && forall|i: int| 0 <= i < a.len() ==> lookup(am, #[trigger] a[i].0) == Some(a[i].1),
        None => true,
    }
}

proof fn lemma_arg_lookups(c: Command)
    ensures
        match c {
            Command::Enroll { enrollment_token, device_name, enrollment_secret } => {
                &&& lookup(command_args(c)->0, "device_name"@) == Some(FieldView::Text(device_name@))
                &&& lookup(command_args(c)->0, "enrollment_token"@) == Some(
                    FieldView::Text(enrollment_token@),
                )
                &&& lookup(command_args(c)->0, "enrollment_secret"@) == match enrollment_secret {
                    Some(s) => Some(FieldView::Text(s@)),
                    None => None,
                }
            },
            Command::SaveBandAdmin { band_uuid, jwt } => {
                &&& lookup(command_args(c)->0, "band_uuid"@) == Some(FieldView::Text(band_uuid@))
                &&& lookup(command_args(c)->0, "jwt"@) == Some(FieldView::Text(jwt@))
            },
            Command::Unenroll { band_uuid } => lookup(command_args(c)->0, "band_uuid"@) == Some(
                FieldView::Text(band_uuid@),
            ),
            Command::ChangeEnrollment { band_uuid } => lookup(command_args(c)->0, "band_uuid"@)
                == Some(FieldView::Text(band_uuid@)),
            _ => true,
        },
{
    reveal_strlit("device_name");
    reveal_strlit("enrollment_secret");
    reveal_strlit("enrollment_token");
    reveal_strlit("band_uuid");
    reveal_strlit("jwt");
    assert("device_name"@.len() == 11);
    assert("enrollment_secret"@.len() == 17);
    assert("enrollment_token"@.len() == 16);
    assert("band_uuid"@.len() == 9);
    assert("jwt"@.len() == 3);
    reveal_with_fuel(lookup, 4);
}

/// What is known of the envelope of `c`.
spec fn envelope_facts(c: Command) -> bool {
    &&& nested_members(request_members(c))
    &&& lookup(request_members(c), "cmd"@) == Some(FieldView::Text(command_name(c)))
    &&& match command_args(c) {
        Some(a) => {
            &&& lookup(request_members(c), "args"@) == Some(FieldView::Compound(object_text(a)))
            &&& nested_members(a)
        },
        None => true,
    }
    &&& command_name(c) == "tunnel_connect"@ ==> c is TunnelConnect
    &&& command_name(c) == "tunnel_disconnect"@ ==> c is TunnelDisconnect
    &&& command_name(c) == "tunnel_get_status"@ ==> c is TunnelGetStatus
    &&& command_name(c) == "get_enrollment_count"@ ==> c is GetEnrollmentCount
    &&& command_name(c) == "get_band_name"@ ==> c is GetBandName
    &&& command_name(c) == "get_active_band"@ ==> c is GetActiveBand
    &&& command_name(c) == "get_active_conf"@ ==> c is GetActiveConf
    &&& command_name(c) == "get_band_admin"@ ==> c is GetBandAdmin
    &&& command_name(c) == "get_enrollment_list"@ ==> c is GetEnrollmentList
    &&& command_name(c) == "enroll"@ ==> c is Enroll
    &&& command_name(c) == "save_band_admin"@ ==> c is SaveBandAdmin
    &&& command_name(c) == "unenroll"@ ==> c is Unenroll
    &&& command_name(c) == "change_enrollment"@ ==> c is ChangeEnrollment
    &&& match c {
        Command::Enroll { enrollment_token, device_name, enrollment_secret } => {
            &&& lookup(command_args(c)->0, "device_name"@) == Some(FieldView::Text(device_name@))
            &&& lookup(command_args(c)->0, "enrollment_token"@) == Some(
                FieldView::Text(enrollment_token@),
            )
            &&& lookup(command_args(c)->0, "enrollment_secret"@) == match enrollment_secret {
                Some(s) => Some(FieldView::Text(s@)),
                None => None,
            }
        },
        Command::SaveBandAdmin { band_uuid, jwt } => {
            &&& lookup(command_args(c)->0, "band_uuid"@) == Some(FieldView::Text(band_uuid@))
            &&& lookup(command_args(c)->0, "jwt"@) == Some(FieldView::Text(jwt@))
        },
        Command::Unenroll { band_uuid } => lookup(command_args(c)->0, "band_uuid"@) == Some(
            FieldView::Text(band_uuid@),
        ),
        Command::ChangeEnrollment { band_uuid } => lookup(command_args(c)->0, "band_uuid"@) == Some(
            FieldView::Text(band_uuid@),
        ),
        _ => true,
    }
}

proof fn lemma_envelope_facts(c: Command)
    ensures
        envelope_facts(c),
{
    lemma_request_members(c);
    lemma_names_distinct(c);
    lemma_arg_lookups(c);
}

impl Command {
    /// The command named `name` whose arguments stand in the `args` object
    /// of the envelope members `ms`.
    fn decode_named(name: &String, ms: &Vec<(String, Field)>) -> (r: Option<Command>)
        ensures
            r matches Some(d) ==> named_in(members_view(ms@), name@, d),
            gives_back(members_view(ms@), name@, r),
    {
        proof {
            reveal_strlit("args");
            assert forall|c: Command| #[trigger] request_members(c) == members_view(ms@)
                implies envelope_facts(c) by {
                lemma_envelope_facts(c);
            }
        }
        if *name == String::from_str("tunnel_connect") {
            return Some(Command::TunnelConnect);
        }
        if *name == String::from_str("tunnel_disconnect") {
            return Some(Command::TunnelDisconnect);
        }
        if *name == String::from_str("tunnel_get_status") {
            return Some(Command::TunnelGetStatus);
        }
        if *name == String::from_str("get_enrollment_count") {
            return Some(Command::GetEnrollmentCount);
        }
        if *name == String::from_str("get_band_name") {
            return Some(Command::GetBandName);
        }
        if *name == String::from_str("get_active_band") {
            return Some(Command::GetActiveBand);
        }
        if *name == String::from_str("get_active_conf") {
            return Some(Command::GetActiveConf);
        }
        if *name == String::from_str("get_band_admin") {
            return Some(Command::GetBandAdmin);
        }
        if *name == String::from_str("get_enrollment_list") {
            return Some(Command::GetEnrollmentList);
        }
        let args_key = String::from_str("args");
        let inner = match find(ms, &args_key) {
            Some(Field::Compound(t)) => parse_object(t.as_str()),
            _ => None,
        };
        let am = match inner {
            Some(am) => am,
            None => return None,
        };
        if *name == String::from_str("enroll") {
            let device_name = text_member(&am, "device_name");
            let enrollment_token = text_member(&am, "enrollment_token");
            let enrollment_secret = text_member(&am, "enrollment_secret");
            match (device_name, enrollment_token) {
                (Some(device_name), Some(enrollment_token)) => Some(
                    Command::Enroll { enrollment_token, device_name, enrollment_secret },
                ),
                _ => None,
            }
        } else if *name == String::from_str("save_band_admin") {
            match (text_member(&am, "band_uuid"), text_member(&am, "jwt")) {
                (Some(band_uuid), Some(jwt)) => Some(Command::SaveBandAdmin { band_uuid, jwt }),
                _ => None,
            }
        } else if *name == String::from_str("unenroll") {
            match text_member(&am, "band_uuid") {
                Some(band_uuid) => Some(Command::Unenroll { band_uuid }),
                None => None,
            }
        } else if *name == String::from_str("change_enrollment") {
            match text_member(&am, "band_uuid") {
                Some(band_uuid) => Some(Command::ChangeEnrollment { band_uuid }),
                None => None,
            }
        } else {
            None
        }
    }

    /// Reads a request envelope, as the service does: the command named by
    /// its `cmd` member, with the string members of its `args` object.
    pub fn decode(text: &str) -> (r: Option<Command>)
        ensures
            r matches Some(d) ==> request_reads_as(text@, d),
            forall|c: Command| #[trigger] request_text(c) == text@ ==> (r matches Some(d)
                && command_name(d) == command_name(c) && command_args(d) == command_args(c)),
    {
        proof {
            reveal_strlit("cmd");
            reveal_strlit("args");
        }
        let parsed = parse_object(text);
        let ms = match parsed {
            Some(ms) => ms,
            None => {
                proof {
                    assert forall|c: Command| #[trigger] request_text(c) == text@ implies false by {
                        lemma_request_members(c);
                    }
                }
                return None;
            },
        };
        let cmd_key = String::from_str("cmd");
        let name = match find(&ms, &cmd_key) {
            Some(Field::Text(n)) => n,
            _ => {
                proof {
                    assert forall|c: Command| #[trigger] request_text(c) == text@ implies false by {
                        lemma_request_members(c);
                    }
                }
                return None;
            },
        };
        let r = Self::decode_named(name, &ms);
        proof {
            assert forall|c: Command| #[trigger] request_text(c) == text@ implies (r matches Some(d)
                && command_name(d) == command_name(c) && command_args(d) == command_args(c)) by {
                lemma_request_members(c);
                lemma_names_distinct(c);
            }
        }
        r
    }
}

} // verus!
