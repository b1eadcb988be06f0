//! The JSON shape of what is sent to the engine and of what it answers: one
//! table of field names for each entity, written as the engine spells them.

use crate::container::{
    denied_capability, obeys_policy, strings_view, ulimits_view, ContainerConfig, ContainerSpec,
    HostConfig, HostLimits, Ulimit, UlimitSpec,
};
use crate::engine::{ContainerCreatedResponse, ContainerHandle, EngineVersion, VersionResponse};
use crate::json::{items_view, member_of, members_view, Json, JsonValue, Member};
use vstd::prelude::*;

verus! {

/// A list of strings as a JSON array.
pub open spec fn texts_json(list: Seq<Seq<char>>) -> Json {
    Json::Array(Seq::new(list.len(), |i: int| Json::Str(list[i])))
}

/// A resource limit as a JSON object.
pub open spec fn ulimit_json(limit: UlimitSpec) -> Json {
    Json::Object(
        seq![
            ("Name"@, Json::Str(limit.name)),
            ("Soft"@, Json::Number(limit.soft)),
            ("Hard"@, Json::Number(limit.hard)),
        ],
    )
}

/// A list of resource limits as a JSON array.
pub open spec fn ulimits_json(list: Seq<UlimitSpec>) -> Json {
    Json::Array(Seq::new(list.len(), |i: int| ulimit_json(list[i])))
}

/// The host's limits as a JSON object.
pub open spec fn host_limits_json(limits: HostLimits) -> Json {
    Json::Object(
        seq![
            ("Memory"@, Json::Number(limits.memory)),
            ("Privileged"@, Json::Bool(limits.privileged)),
            ("CapAdd"@, texts_json(limits.cap_add)),
            ("CapDrop"@, texts_json(limits.cap_drop)),
            ("Ulimits"@, ulimits_json(limits.ulimits)),
        ],
    )
}

/// A container configuration as a JSON object.
pub open spec fn container_json(spec: ContainerSpec) -> Json {
    Json::Object(
        seq![
            ("Hostname"@, Json::Str(spec.hostname)),
            ("User"@, Json::Str(spec.user)),
            ("AttachStdin"@, Json::Bool(spec.attach_stdin)),
            ("AttachStdout"@, Json::Bool(spec.attach_stdout)),
            ("AttachStderr"@, Json::Bool(spec.attach_stderr)),
            ("Tty"@, Json::Bool(spec.tty)),
            ("OpenStdin"@, Json::Bool(spec.open_stdin)),
            ("StdinOnce"@, Json::Bool(spec.stdin_once)),
            ("Image"@, Json::Str(spec.image)),
            ("NetworkDisabled"@, Json::Bool(spec.network_disabled)),
            ("HostConfig"@, host_limits_json(spec.host_config)),
        ],
    )
}

fn member(key: &str, value: JsonValue) -> (m: Member)
    ensures
        m.key@ == key@,
        m.value == value,
{
    Member { key: key.to_string(), value }
}

fn text(s: &str) -> (value: JsonValue)
    ensures
        value@ == Json::Str(s@),
{
    JsonValue::Str(s.to_string())
}

/// The JSON array of a list of strings.
pub fn texts_to_json(list: &Vec<String>) -> (value: JsonValue)
    ensures
        value@ == texts_json(strings_view(*list)),
{
    let mut items: Vec<JsonValue> = Vec::new();
    let mut i: usize = 0;
    while i < list.len()
        invariant
            i <= list.len(),
            items.len() == i,
            forall|j: int| 0 <= j < i ==> (#[trigger] items@[j])@ == Json::Str(list@[j]@),
        decreases list.len() - i,
    {
        items.push(text(list[i].as_str()));
        i = i + 1;
    }
    assert(items_view(items) == Seq::new(
        strings_view(*list).len(),
        |i: int| Json::Str(strings_view(*list)[i]),
    ));
    JsonValue::Array(items)
}

impl Ulimit {
    /// The JSON object of the limit.
    pub fn to_json(&self) -> (value: JsonValue)
        ensures
            value@ == ulimit_json(self@),
    {
        let members = vec![
            member("Name", text(self.name())),
            member("Soft", JsonValue::Number(self.soft())),
            member("Hard", JsonValue::Number(self.hard())),
        ];
        assert(members_view(members) == ulimit_json(self@)->Object_0);
        JsonValue::Object(members)
    }
}

/// The JSON array of a list of resource limits.
pub fn ulimits_to_json(list: &Vec<Ulimit>) -> (value: JsonValue)
    ensures
        value@ == ulimits_json(ulimits_view(*list)),
{
    let mut items: Vec<JsonValue> = Vec::new();
    let mut i: usize = 0;
    while i < list.len()
        invariant
            i <= list.len(),
            items.len() == i,
            forall|j: int| 0 <= j < i ==> (#[trigger] items@[j])@ == ulimit_json(list@[j]@),
        decreases list.len() - i,
    {
        items.push(list[i].to_json());
        i = i + 1;
    }
    assert(items_view(items) == Seq::new(
        ulimits_view(*list).len(),
        |i: int| ulimit_json(ulimits_view(*list)[i]),
    ));
    JsonValue::Array(items)
}

impl HostConfig {
    /// The JSON object of the limits.
    pub fn to_json(&self) -> (value: JsonValue)
        ensures
            value@ == host_limits_json(self@),
    {
        let members = vec![
            member("Memory", JsonValue::Number(self.memory())),
            member("Privileged", JsonValue::Bool(self.privileged())),
            member("CapAdd", texts_to_json(self.cap_add())),
            member("CapDrop", texts_to_json(self.cap_drop())),
            member("Ulimits", ulimits_to_json(self.ulimits())),
        ];
        assert(members_view(members) == host_limits_json(self@)->Object_0);
        JsonValue::Object(members)
    }
}

impl ContainerConfig {
    /// The JSON object of the configuration, as the engine's create call
    /// takes it.
    pub fn to_json(&self) -> (value: JsonValue)
        ensures
            value@ == container_json(self@),
    {
        let members = vec![
            member("Hostname", text(self.hostname())),
            member("User", text(self.user())),
            member("AttachStdin", JsonValue::Bool(self.attach_stdin())),
            member("AttachStdout", JsonValue::Bool(self.attach_stdout())),
            member("AttachStderr", JsonValue::Bool(self.attach_stderr())),
            member("Tty", JsonValue::Bool(self.tty())),
            member("OpenStdin", JsonValue::Bool(self.open_stdin())),
            member("StdinOnce", JsonValue::Bool(self.stdin_once())),
            member("Image", text(self.image())),
            member("NetworkDisabled", JsonValue::Bool(self.network_disabled())),
            member("HostConfig", self.host_config().to_json()),
        ];
        assert(members_view(members) == container_json(self@)->Object_0);
        JsonValue::Object(members)
    }
}

/// The list of strings that a JSON array of strings holds; none for
/// anything else.
pub open spec fn texts_of(value: Json) -> Option<Seq<Seq<char>>> {
    match value {
        Json::Array(items) => if forall|i: int|
            0 <= i < items.len() ==> (#[trigger] items[i]) is Str {
            Some(Seq::new(items.len(), |i: int| items[i]->Str_0))
        } else {
            None
        },
        _ => None,
    }
}

/// The resource limit that a JSON object holds; none where a field is missing
/// or of another kind.
pub open spec fn ulimit_of(value: Json) -> Option<UlimitSpec> {
    match (value.str_at("Name"@), value.number_at("Soft"@), value.number_at("Hard"@)) {
        (Some(name), Some(soft), Some(hard)) => Some(UlimitSpec { name, soft, hard }),
        _ => None,
    }
}

/// The resource limits that a JSON array of them holds.
pub open spec fn ulimits_of(value: Json) -> Option<Seq<UlimitSpec>> {
    match value {
        Json::Array(items) => if forall|i: int|
            0 <= i < items.len() ==> ulimit_of(#[trigger] items[i]) is Some {
            Some(Seq::new(items.len(), |i: int| ulimit_of(items[i])->Some_0))
        } else {
            None
        },
        _ => None,
    }
}

/// The member `key` of `value` read with `read`.
pub open spec fn read_at<T>(
    value: Json,
    key: Seq<char>,
    read: spec_fn(Json) -> Option<T>,
) -> Option<T> {
    match value.get(key) {
        Some(member) => read(member),
        None => None,
    }
}

/// The host's limits that a JSON object holds.
pub open spec fn host_limits_of(value: Json) -> Option<HostLimits> {
    match (
        value.number_at("Memory"@),
        value.bool_at("Privileged"@),
        read_at(value, "CapAdd"@, |v: Json| texts_of(v)),
        read_at(value, "CapDrop"@, |v: Json| texts_of(v)),
        read_at(value, "Ulimits"@, |v: Json| ulimits_of(v)),
    ) {
        (Some(memory), Some(privileged), Some(cap_add), Some(cap_drop), Some(ulimits)) => Some(
            HostLimits { memory, privileged, cap_add, cap_drop, ulimits },
        ),
        _ => None,
    }
}

/// The container configuration that a JSON object holds, whatever its policy.
pub open spec fn container_fields_of(value: Json) -> Option<ContainerSpec> {
    match (
        (value.str_at("Hostname"@), value.str_at("User"@), value.str_at("Image"@)),
        (
            value.bool_at("AttachStdin"@),
            value.bool_at("AttachStdout"@),
            value.bool_at("AttachStderr"@),
        ),
        (value.bool_at("Tty"@), value.bool_at("OpenStdin"@), value.bool_at("StdinOnce"@)),
        value.bool_at("NetworkDisabled"@),
        read_at(value, "HostConfig"@, |v: Json| host_limits_of(v)),
    ) {
        (
            (Some(hostname), Some(user), Some(image)),
            (Some(attach_stdin), Some(attach_stdout), Some(attach_stderr)),
            (Some(tty), Some(open_stdin), Some(stdin_once)),
            Some(network_disabled),
            Some(host_config),
        ) => Some(
            ContainerSpec {
                hostname,
                user,
                attach_stdin,
                attach_stdout,
                attach_stderr,
                tty,
                open_stdin,
                stdin_once,
                image,
                network_disabled,
                host_config,
            },
        ),
        _ => None,
    }
}

/// The container configuration that a JSON object holds: every field must be
/// there and of its kind, and the whole must obey the sandboxing policy.
pub open spec fn container_of(value: Json) -> Option<ContainerSpec> {
    match container_fields_of(value) {
        Some(spec) => if obeys_policy(spec) {
            Some(spec)
        } else {
            None
        },
        None => None,
    }
}

/// The engine's version record that a JSON object holds.
pub open spec fn version_of(value: Json) -> Option<EngineVersion> {
    match (value.str_at("Version"@), value.str_at("ApiVersion"@), value.str_at("KernelVersion"@)) {
        (Some(version), Some(api_version), Some(kernel_version)) => Some(
            EngineVersion { version, api_version, kernel_version },
        ),
        _ => None,
    }
}

/// The container handle that a JSON object holds.
pub open spec fn handle_of(value: Json) -> Option<ContainerHandle> {
    match (value.str_at("Id"@), read_at(value, "Warnings"@, |v: Json| texts_of(v))) {
        (Some(id), Some(warnings)) => Some(ContainerHandle { id, warnings }),
        _ => None,
    }
}

/// Reads a JSON array of strings.
pub fn texts_from_json(value: &JsonValue) -> (r: Option<Vec<String>>)
    ensures
        match r {
            Some(list) => texts_of(value@) == Some(strings_view(list)),
            None => texts_of(value@) is None,
        },
{
    let items = match value.as_array() {
        Some(items) => items,
        None => {
            return None;
        },
    };
    let ghost all = items_view(*items);
    let mut list: Vec<String> = Vec::new();
    let mut i: usize = 0;
    while i < items.len()
        invariant
            i <= items.len(),
            list.len() == i,
            all == items_view(*items),
            value@ == Json::Array(all),
            forall|j: int| 0 <= j < i ==> (#[trigger] all[j]) is Str,
            forall|j: int| 0 <= j < i ==> (#[trigger] list@[j])@ == all[j]->Str_0,
        decreases items.len() - i,
    {
        match items[i].as_str() {
            Some(s) => {
                list.push(s.to_string());
            },
            None => {
                assert(!(all[i as int] is Str));
                return None;
            },
        }
        i = i + 1;
    }
    assert(strings_view(list) == Seq::new(all.len(), |i: int| all[i]->Str_0));
    Some(list)
}

impl Ulimit {
    /// Reads a resource limit from its JSON object.
    pub fn from_json(value: &JsonValue) -> (r: Option<Ulimit>)
        ensures
            match r {
                Some(limit) => ulimit_of(value@) == Some(limit@),
                None => ulimit_of(value@) is None,
            },
    {
        let name = match value.str_at("Name") {
            Some(s) => s.to_string(),
            None => {
                return None;
            },
        };
        let soft = match value.i64_at("Soft") {
            Some(n) => n,
            None => {
                return None;
            },
        };
        let hard = match value.i64_at("Hard") {
            Some(n) => n,
            None => {
                return None;
            },
        };
        Some(Ulimit::new(name, soft, hard))
    }
}

/// Reads a JSON array of resource limits.
pub fn ulimits_from_json(value: &JsonValue) -> (r: Option<Vec<Ulimit>>)
    ensures
        match r {
            Some(list) => ulimits_of(value@) == Some(ulimits_view(list)),
            None => ulimits_of(value@) is None,
        },
{
    let items = match value.as_array() {
        Some(items) => items,
        None => {
            return None;
        },
    };
    let ghost all = items_view(*items);
    let mut list: Vec<Ulimit> = Vec::new();
    let mut i: usize = 0;
    while i < items.len()
        invariant
            i <= items.len(),
            list.len() == i,
            all == items_view(*items),
            value@ == Json::Array(all),
            forall|j: int| 0 <= j < i ==> ulimit_of(#[trigger] all[j]) is Some,
            forall|j: int| 0 <= j < i ==> (#[trigger] list@[j])@ == ulimit_of(all[j])->Some_0,
        decreases items.len() - i,
    {
        match Ulimit::from_json(&items[i]) {
            Some(limit) => {
                list.push(limit);
            },
            None => {
                assert(!(ulimit_of(all[i as int]) is Some));
                return None;
            },
        }
        i = i + 1;
    }
    assert(ulimits_view(list) == Seq::new(all.len(), |i: int| ulimit_of(all[i])->Some_0));
    Some(list)
}

impl HostConfig {
    /// Reads the host's limits from their JSON object.
    pub fn from_json(value: &JsonValue) -> (r: Option<HostConfig>)
        ensures
            match r {
                Some(limits) => host_limits_of(value@) == Some(limits@),
                None => host_limits_of(value@) is None,
            },
    {
        let memory = match value.i64_at("Memory") {
            Some(n) => n,
            None => {
                return None;
            },
        };
        let privileged = match value.bool_at("Privileged") {
            Some(b) => b,
            None => {
                return None;
            },
        };
        let cap_add = match value.get("CapAdd") {
            Some(member) => match texts_from_json(member) {
                Some(list) => list,
                None => {
                    return None;
                },
            },
            None => {
                return None;
            },
        };
        let cap_drop = match value.get("CapDrop") {
            Some(member) => match texts_from_json(member) {
                Some(list) => list,
                None => {
                    return None;
                },
            },
            None => {
                return None;
            },
        };
        let ulimits = match value.get("Ulimits") {
            Some(member) => match ulimits_from_json(member) {
                Some(list) => list,
                None => {
                    return None;
                },
            },
            None => {
                return None;
            },
        };
        Some(HostConfig::new(memory, privileged, cap_add, cap_drop, ulimits))
    }
}

impl ContainerConfig {
    /// Reads a container configuration from its JSON object. A document that
    /// lacks a field, holds one of another kind, or describes a container
    /// outside the sandboxing policy gives none.
    pub fn from_json(value: &JsonValue) -> (r: Option<ContainerConfig>)
        ensures
            match r {
                Some(config) => container_of(value@) == Some(config@),
                None => container_of(value@) is None,
            },
    {
        let hostname = match value.str_at("Hostname") {
            Some(s) => s.to_string(),
            None => {
                return None;
            },
        };
        let user = match value.str_at("User") {
            Some(s) => s.to_string(),
            None => {
                return None;
            },
        };
        let image = match value.str_at("Image") {
            Some(s) => s.to_string(),
            None => {
                return None;
            },
        };
        let attach_stdin = match value.bool_at("AttachStdin") {
            Some(b) => b,
            None => {
                return None;
            },
        };
        let attach_stdout = match value.bool_at("AttachStdout") {
            Some(b) => b,
            None => {
                return None;
            },
        };
        let attach_stderr = match value.bool_at("AttachStderr") {
            Some(b) => b,
            None => {
                return None;
            },
        };
        let tty = match value.bool_at("Tty") {
            Some(b) => b,
            None => {
                return None;
            },
        };
        let open_stdin = match value.bool_at("OpenStdin") {
            Some(b) => b,
            None => {
                return None;
            },
        };
        let stdin_once = match value.bool_at("StdinOnce") {
            Some(b) => b,
            None => {
                return None;
            },
        };
        let network_disabled = match value.bool_at("NetworkDisabled") {
            Some(b) => b,
            None => {
                return None;
            },
        };
        let host_config = match value.get("HostConfig") {
            Some(member) => match HostConfig::from_json(member) {
                Some(limits) => limits,
                None => {
                    return None;
                },
            },
            None => {
                return None;
            },
        };
        ContainerConfig::new(
            hostname,
            user,
            attach_stdin,
            attach_stdout,
            attach_stderr,
            tty,
            open_stdin,
            stdin_once,
            image,
            network_disabled,
            host_config,
        )
    }
}

impl VersionResponse {
    /// Reads the engine's version record from its JSON object.
    pub fn from_json(value: &JsonValue) -> (r: Option<VersionResponse>)
        ensures
            match r {
                Some(version) => version_of(value@) == Some(version@),
                None => version_of(value@) is None,
            },
    {
        let version = match value.str_at("Version") {
            Some(s) => s.to_string(),
            None => {
                return None;
            },
        };
        let api_version = match value.str_at("ApiVersion") {
            Some(s) => s.to_string(),
            None => {
                return None;
            },
        };
        let kernel_version = match value.str_at("KernelVersion") {
            Some(s) => s.to_string(),
            None => {
                return None;
            },
        };
        Some(VersionResponse::new(version, api_version, kernel_version))
    }
}

impl ContainerCreatedResponse {
    /// Reads the handle of a created container from its JSON object.
    pub fn from_json(value: &JsonValue) -> (r: Option<ContainerCreatedResponse>)
        ensures
            match r {
                Some(handle) => handle_of(value@) == Some(handle@),
                None => handle_of(value@) is None,
            },
    {
        let id = match value.str_at("Id") {
            Some(s) => s.to_string(),
            None => {
                return None;
            },
        };
        let warnings = match value.get("Warnings") {
            Some(member) => match texts_from_json(member) {
                Some(list) => list,
                None => {
                    return None;
                },
            },
            None => {
                return None;
            },
        };
        Some(ContainerCreatedResponse::new(id, warnings))
    }
}

/// A list of strings comes back from its JSON array as it went in.
pub proof fn lemma_texts_round_trip(list: Seq<Seq<char>>)
    ensures
        texts_of(texts_json(list)) == Some(list),
{
    let items = texts_json(list)->Array_0;
    assert(Seq::new(items.len(), |i: int| items[i]->Str_0) == list);
}

/// A resource limit comes back from its JSON object as it went in.
pub proof fn lemma_ulimit_round_trip(limit: UlimitSpec)
    ensures
        ulimit_of(ulimit_json(limit)) == Some(limit),
{
    reveal_strlit("Name");
    reveal_strlit("Soft");
    reveal_strlit("Hard");
    reveal_with_fuel(member_of, 4);
    let members = ulimit_json(limit)->Object_0;
    assert("Name"@ != "Soft"@) by {
        assert("Name"@[0] != "Soft"@[0]);
    }
    assert("Name"@ != "Hard"@) by {
        assert("Name"@[0] != "Hard"@[0]);
    }
    assert("Soft"@ != "Hard"@) by {
        assert("Soft"@[0] != "Hard"@[0]);
    }
    assert(members.skip(1)[0] == members[1]);
    assert(members.skip(1).skip(1)[0] == members[2]);
}

/// A list of resource limits comes back from its JSON array as it went in.
pub proof fn lemma_ulimits_round_trip(list: Seq<UlimitSpec>)
    ensures
        ulimits_of(ulimits_json(list)) == Some(list),
{
    let items = ulimits_json(list)->Array_0;
    assert forall|i: int| 0 <= i < items.len() implies ulimit_of(#[trigger] items[i]) == Some(
        list[i],
    ) by {
        lemma_ulimit_round_trip(list[i]);
    }
    assert(Seq::new(items.len(), |i: int| ulimit_of(items[i])->Some_0) == list);
}

/// Looking up the key of a member that no earlier member shares gives that
/// member's value.
pub proof fn lemma_member_found(members: Seq<(Seq<char>, Json)>, k: int)
    requires
        0 <= k < members.len(),
        forall|j: int| 0 <= j < k ==> (#[trigger] members[j]).0 != members[k].0,
    ensures
        member_of(members, members[k].0) == Some(members[k].1),
    decreases k,
{
    if k > 0 {
        let rest = members.skip(1);
        assert(members[0].0 != members[k].0);
        assert(rest[k - 1] == members[k]);
        assert forall|j: int| 0 <= j < k - 1 implies (#[trigger] rest[j]).0 != rest[k - 1].0 by {
            assert(rest[j] == members[j + 1]);
        }
        lemma_member_found(rest, k - 1);
    }
}

/// The host's limits come back from their JSON object as they went in.
pub proof fn lemma_host_limits_round_trip(limits: HostLimits)
    ensures
        host_limits_of(host_limits_json(limits)) == Some(limits),
{
    reveal_strlit("Memory");
    reveal_strlit("Privileged");
    reveal_strlit("CapAdd");
    reveal_strlit("CapDrop");
    reveal_strlit("Ulimits");
    assert("Memory"@.len() == 6);
    assert("Privileged"@.len() == 10);
    assert("CapAdd"@.len() == 6);
    assert("CapDrop"@.len() == 7);
    assert("Ulimits"@.len() == 7);
    let members = host_limits_json(limits)->Object_0;
    assert("Memory"@ != "CapAdd"@) by {
        assert("Memory"@[0] != "CapAdd"@[0]);
    }
    assert("CapDrop"@ != "Ulimits"@) by {
        assert("CapDrop"@[0] != "Ulimits"@[0]);
    }
    lemma_member_found(members, 0);
    lemma_member_found(members, 1);
    lemma_member_found(members, 2);
    lemma_member_found(members, 3);
    lemma_member_found(members, 4);
    lemma_texts_round_trip(limits.cap_add);
    lemma_texts_round_trip(limits.cap_drop);
    lemma_ulimits_round_trip(limits.ulimits);
}

/// Every field of a container configuration comes back from its JSON object
/// as it went in.
pub proof fn lemma_container_fields_round_trip(spec: ContainerSpec)
    ensures
        container_fields_of(container_json(spec)) == Some(spec),
{
    reveal_strlit("Hostname");
    reveal_strlit("User");
    reveal_strlit("AttachStdin");
    reveal_strlit("AttachStdout");
    reveal_strlit("AttachStderr");
    reveal_strlit("Tty");
    reveal_strlit("OpenStdin");
    reveal_strlit("StdinOnce");
    reveal_strlit("Image");
    reveal_strlit("NetworkDisabled");
    reveal_strlit("HostConfig");
    assert("Hostname"@.len() == 8);
    assert("User"@.len() == 4);
    assert("AttachStdin"@.len() == 11);
    assert("AttachStdout"@.len() == 12);
    assert("AttachStderr"@.len() == 12);
    assert("Tty"@.len() == 3);
    assert("OpenStdin"@.len() == 9);
    assert("StdinOnce"@.len() == 9);
    assert("Image"@.len() == 5);
    assert("NetworkDisabled"@.len() == 15);
    assert("HostConfig"@.len() == 10);
    let members = container_json(spec)->Object_0;
    assert("AttachStdout"@ != "AttachStderr"@) by {
        assert("AttachStdout"@[9] != "AttachStderr"@[9]);
    }
    assert("OpenStdin"@ != "StdinOnce"@) by {
        assert("OpenStdin"@[0] != "StdinOnce"@[0]);
    }
    lemma_member_found(members, 0);
    lemma_member_found(members, 1);
    lemma_member_found(members, 2);
    lemma_member_found(members, 3);
    lemma_member_found(members, 4);
    lemma_member_found(members, 5);
    lemma_member_found(members, 6);
    lemma_member_found(members, 7);
    lemma_member_found(members, 8);
    lemma_member_found(members, 9);
    lemma_member_found(members, 10);
    lemma_host_limits_round_trip(spec.host_config);
}

/// Writing a container configuration as JSON and reading that JSON back
/// gives the configuration it started from, field for field.
pub proof fn lemma_container_round_trip(spec: ContainerSpec)
    requires
        obeys_policy(spec),
    ensures
        container_of(container_json(spec)) == Some(spec),
{
    lemma_container_fields_round_trip(spec);
}

/// The sandboxing policy shows in the JSON of every configuration that obeys
/// it: `NetworkDisabled` is true, and the `CapDrop` list of `HostConfig`
/// holds the denied capability.
pub proof fn lemma_policy_shows_in_json(spec: ContainerSpec)
    requires
        obeys_policy(spec),
    ensures
        container_json(spec).bool_at("NetworkDisabled"@) == Some(true),
        container_json(spec).get("HostConfig"@) matches Some(host) && host.get("CapDrop"@)
            matches Some(list) && texts_of(list) matches Some(names) && names.contains(
            denied_capability(),
        ),
{
    lemma_container_fields_round_trip(spec);
    lemma_host_limits_round_trip(spec.host_config);
}

} // verus!
