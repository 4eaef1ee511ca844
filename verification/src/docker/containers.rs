//! Containers of the container runtime: the commands that run, start,
//! stop, remove, inspect and list them, and what is read from their output.

use crate::docker::{
    check_exists_command, error_mentions, mentions, output_view, After, Command, Guarded,
    GuardedState, GuardedStateView, GuardedView,
};
use crate::error::{decode, ActivityError, ErrorView};
use crate::json::{json_items, read_items, read_text, text_member};
use crate::protocol::{Progress, ProgressView};
use crate::text::{
    decimal_text, is_blank, lines, opt_text, push_decimal, same_text, split_lines, trimmed,
};
use vstd::prelude::*;
use vstd::string::StringExecFns;

verus! {

/// A port of the host published for a port of the container.
#[derive(Clone, Debug, PartialEq, Eq)]
pub struct PortMapping {
    pub host_port: u16,
    pub container_port: u16,
    pub protocol: String,
}

/// A directory or volume mounted into the container.
#[derive(Clone, Debug, PartialEq, Eq)]
pub struct Mount {
    pub source: String,
    pub target: String,
    pub readonly: bool,
}

/// What a container is made of.
#[derive(Clone, Debug, PartialEq, Eq)]
pub struct ContainerConfig {
    pub image: String,
    pub env: Vec<(String, String)>,
    pub ports: Vec<PortMapping>,
    pub mounts: Vec<Mount>,
    pub network: Option<String>,
    pub cmd: Option<Vec<String>>,
}

/// The kind under which the runtime inspects a container.
pub const CONTAINER: &'static str = "container";

/// The state in which a container runs.
pub const RUNNING: &'static str = "running";

/// One environment variable as an argument: `key=value`.
pub open spec fn env_text(variable: (String, String)) -> Seq<char> {
    variable.0@ + "="@ + variable.1@
}

/// One published port as an argument: `host:container/protocol`.
pub open spec fn port_text(port: PortMapping) -> Seq<char> {
    decimal_text(port.host_port as nat) + ":"@ + decimal_text(port.container_port as nat) + "/"@
        + port.protocol@
}

/// One mount as an argument: `source:target:ro` or `source:target:rw`.
pub open spec fn mount_text(mount: Mount) -> Seq<char> {
    mount.source@ + ":"@ + mount.target@ + ":"@ + if mount.readonly {
        "ro"@
    } else {
        "rw"@
    }
}

/// `-e key=value` for each environment variable, in order.
pub open spec fn env_args(env: Seq<(String, String)>) -> Seq<Seq<char>>
    decreases env.len(),
{
    if env.len() == 0 {
        Seq::empty()
    } else {
        env_args(env.drop_last()) + seq!["-e"@, env_text(env.last())]
    }
}

/// `-p host:container/protocol` for each published port, in order.
pub open spec fn port_args(ports: Seq<PortMapping>) -> Seq<Seq<char>>
    decreases ports.len(),
{
    if ports.len() == 0 {
        Seq::empty()
    } else {
        port_args(ports.drop_last()) + seq!["-p"@, port_text(ports.last())]
    }
}

/// `-v source:target:mode` for each mount, in order.
pub open spec fn mount_args(mounts: Seq<Mount>) -> Seq<Seq<char>>
    decreases mounts.len(),
{
    if mounts.len() == 0 {
        Seq::empty()
    } else {
        mount_args(mounts.drop_last()) + seq!["-v"@, mount_text(mounts.last())]
    }
}

/// `--network name` where a network is given.
pub open spec fn network_args(network: Option<String>) -> Seq<Seq<char>> {
    match network {
        Some(name) => seq!["--network"@, name@],
        None => Seq::empty(),
    }
}

/// The command of the container, where one is given.
pub open spec fn cmd_args(cmd: Option<Vec<String>>) -> Seq<Seq<char>> {
    match cmd {
        Some(parts) => parts.deep_view(),
        None => Seq::empty(),
    }
}

/// The arguments that run a detached container `name` from `config`:
/// environment, ports, mounts and network come before the image, the
/// container's own command after it.
pub open spec fn run_args(name: Seq<char>, config: ContainerConfig) -> Seq<Seq<char>> {
    seq!["run"@, "-d"@, "--name"@, name] + env_args(config.env@) + port_args(config.ports@)
        + mount_args(config.mounts@) + network_args(config.network) + seq![config.image@]
        + cmd_args(config.cmd)
}

/// Appends copies of `parts` to `args`, in order.
fn push_all(args: &mut Vec<String>, parts: &Vec<String>)
    ensures
        final(args).deep_view() == old(args).deep_view() + parts.deep_view(),
{
    let ghost before = args.deep_view();
    let mut i: usize = 0;
    while i < parts.len()
        invariant
            i <= parts.len(),
            args.deep_view() == before + parts.deep_view().take(i as int),
        decreases parts.len() - i,
    {
        let ghost so_far = args.deep_view();
        args.push(parts[i].clone());
        assert(args.deep_view() =~= so_far.push(parts@[i as int]@));
        assert(before + parts.deep_view().take(i + 1) =~= (before + parts.deep_view().take(
            i as int,
        )).push(parts@[i as int]@));
        i += 1;
    }
    assert(parts.deep_view().take(parts.len() as int) =~= parts.deep_view());
}

/// Builds the command that runs a detached container `name` from
/// `config`.
pub fn run_command(name: &str, config: &ContainerConfig) -> (command: Command)
    ensures
        command@ == run_args(name@, *config),
{
    let mut args: Vec<String> = Vec::new();
    args.push(String::from_str("run"));
    args.push(String::from_str("-d"));
    args.push(String::from_str("--name"));
    args.push(String::from_str(name));
    let ghost head = seq!["run"@, "-d"@, "--name"@, name@];
    assert(args.deep_view() =~= head);

    let mut i: usize = 0;
    assert(config.env@.take(0) =~= Seq::<(String, String)>::empty());
    assert(head + env_args(config.env@.take(0)) =~= head);
    while i < config.env.len()
        invariant
            i <= config.env.len(),
            args.deep_view() == head + env_args(config.env@.take(i as int)),
        decreases config.env.len() - i,
    {
        let ghost so_far = args.deep_view();
        let mut text = config.env[i].0.clone();
        text.append("=");
        text.append(config.env[i].1.as_str());
        args.push(String::from_str("-e"));
        args.push(text);
        proof {
            let next = config.env@.take(i + 1);
            assert(next.drop_last() =~= config.env@.take(i as int));
            assert(next.last() == config.env@[i as int]);
            assert(args.deep_view() =~= so_far + seq!["-e"@, env_text(config.env@[i as int])]);
            assert(args.deep_view() =~= head + env_args(next));
        }
        i += 1;
    }
    assert(config.env@.take(config.env@.len() as int) =~= config.env@);
    let ghost head = head + env_args(config.env@);

    let mut i: usize = 0;
    assert(config.ports@.take(0) =~= Seq::<PortMapping>::empty());
    assert(head + port_args(config.ports@.take(0)) =~= head);
    while i < config.ports.len()
        invariant
            i <= config.ports.len(),
            args.deep_view() == head + port_args(config.ports@.take(i as int)),
        decreases config.ports.len() - i,
    {
        let ghost so_far = args.deep_view();
        let port = &config.ports[i];
        let mut text = String::new();
        push_decimal(&mut text, port.host_port as u64);
        text.append(":");
        push_decimal(&mut text, port.container_port as u64);
        text.append("/");
        text.append(port.protocol.as_str());
        assert(text@ =~= port_text(config.ports@[i as int]));
        args.push(String::from_str("-p"));
        args.push(text);
        proof {
            let next = config.ports@.take(i + 1);
            assert(next.drop_last() =~= config.ports@.take(i as int));
            assert(next.last() == config.ports@[i as int]);
            assert(args.deep_view() =~= so_far + seq!["-p"@, port_text(config.ports@[i as int])]);
            assert(args.deep_view() =~= head + port_args(next));
        }
        i += 1;
    }
    assert(config.ports@.take(config.ports@.len() as int) =~= config.ports@);
    let ghost head = head + port_args(config.ports@);

    let mut i: usize = 0;
    assert(config.mounts@.take(0) =~= Seq::<Mount>::empty());
    assert(head + mount_args(config.mounts@.take(0)) =~= head);
    while i < config.mounts.len()
        invariant
            i <= config.mounts.len(),
            args.deep_view() == head + mount_args(config.mounts@.take(i as int)),
        decreases config.mounts.len() - i,
    {
        let ghost so_far = args.deep_view();
        let mount = &config.mounts[i];
        let mut text = mount.source.clone();
        text.append(":");
        text.append(mount.target.as_str());
        text.append(":");
        text.append(if mount.readonly {
            "ro"
        } else {
            "rw"
        });
        assert(text@ =~= mount_text(config.mounts@[i as int]));
        args.push(String::from_str("-v"));
        args.push(text);
        proof {
            let next = config.mounts@.take(i + 1);
            assert(next.drop_last() =~= config.mounts@.take(i as int));
            assert(next.last() == config.mounts@[i as int]);
            assert(args.deep_view() =~= so_far + seq!["-v"@, mount_text(config.mounts@[i as int])]);
            assert(args.deep_view() =~= head + mount_args(next));
        }
        i += 1;
    }
    assert(config.mounts@.take(config.mounts@.len() as int) =~= config.mounts@);
    let ghost head = head + mount_args(config.mounts@);

    let ghost so_far = args.deep_view();
    match &config.network {
        Some(network) => {
            args.push(String::from_str("--network"));
            args.push(network.clone());
        },
        None => {},
    }
    assert(args.deep_view() =~= so_far + network_args(config.network));
    let ghost so_far = args.deep_view();
    args.push(config.image.clone());
    assert(args.deep_view() =~= so_far + seq![config.image@]);
    let ghost so_far = args.deep_view();
    match &config.cmd {
        Some(parts) => {
            push_all(&mut args, parts);
        },
        None => {},
    }
    assert(args.deep_view() =~= so_far + cmd_args(config.cmd));
    Command { args }
}

/// What an inspection tells of a container.
#[derive(Clone, Debug, PartialEq, Eq)]
pub struct ContainerInfo {
    pub id: String,
    pub state: String,
}

/// The mathematical counterpart of [`ContainerInfo`].
pub struct ContainerInfoView {
    pub id: Seq<char>,
    pub state: Seq<char>,
}

impl View for ContainerInfo {
    type V = ContainerInfoView;

    open spec fn view(&self) -> ContainerInfoView {
        ContainerInfoView { id: self.id@, state: self.state@ }
    }
}

/// The command that inspects the container `name`.
pub fn inspect_command(name: &str) -> (command: Command)
    ensures
        command@ == seq!["inspect"@, name@],
{
    let mut args: Vec<String> = Vec::new();
    args.push(String::from_str("inspect"));
    args.push(String::from_str(name));
    let command = Command { args };
    assert(command@ =~= seq!["inspect"@, name@]);
    command
}

/// The container that one element of an inspection describes by its string
/// members `Id` and `State.Status`, if it has both.
pub open spec fn info_of(id: Option<Seq<char>>, status: Option<Seq<char>>) -> Option<
    ContainerInfoView,
> {
    if id is Some && status is Some {
        Some(ContainerInfoView { id: id->0, state: status->0 })
    } else {
        None
    }
}

/// The container that the JSON text `item` describes.
pub open spec fn described_container(item: Seq<char>) -> Option<ContainerInfoView> {
    info_of(text_member(item, "/Id"@), text_member(item, "/State/Status"@))
}

/// Every element describes a container.
pub open spec fn all_containers(items: Seq<Seq<char>>) -> bool {
    forall|i: int| 0 <= i < items.len() ==> (#[trigger] described_container(items[i])) is Some
}

/// What the outcome of an inspection tells: nothing where the command
/// failed or printed an empty array, the first container where it printed
/// an array of containers, and a decode error for any other output.
pub open spec fn inspect_outcome(inspection: Result<Seq<char>, ErrorView>) -> Result<
    Option<ContainerInfoView>,
    ErrorView,
> {
    match inspection {
        Err(_) => Ok(None),
        Ok(output) => match json_items(output, Seq::empty()) {
            None => Err(decode(output)),
            Some(items) => if !all_containers(items) {
                Err(decode(output))
            } else if items.len() == 0 {
                Ok(None)
            } else {
                Ok(Some(described_container(items[0])->0))
            },
        },
    }
}

/// The view of what an inspection tells.
pub open spec fn info_view(r: Result<Option<ContainerInfo>, ActivityError>) -> Result<
    Option<ContainerInfoView>,
    ErrorView,
> {
    match r {
        Ok(Some(info)) => Ok(Some(info@)),
        Ok(None) => Ok(None),
        Err(e) => Err(e@),
    }
}

/// Builds a container from the two members already read from one element
/// of an inspection.
pub fn decide_container(id: Option<String>, status: Option<String>) -> (info: Option<ContainerInfo>)
    ensures
        info is Some <==> info_of(opt_text(id), opt_text(status)) is Some,
        info matches Some(i) ==> info_of(opt_text(id), opt_text(status)) == Some(i@),
{
    match (id, status) {
        (Some(id), Some(state)) => Some(ContainerInfo { id, state }),
        _ => None,
    }
}

/// Reads one element of an inspection.
pub fn read_container(item: &str) -> (info: Option<ContainerInfo>)
    ensures
        info is Some <==> described_container(item@) is Some,
        info matches Some(i) ==> described_container(item@) == Some(i@),
{
    decide_container(read_text(item, "/Id"), read_text(item, "/State/Status"))
}

/// Reads what the outcome of an inspection tells of the container.
pub fn inspect_container(inspection: Result<String, ActivityError>) -> (r: Result<
    Option<ContainerInfo>,
    ActivityError,
>)
    ensures
        info_view(r) == inspect_outcome(output_view(inspection)),
{
    let output = match inspection {
        Err(_) => {
            return Ok(None);
        },
        Ok(output) => output,
    };
    proof {
        reveal_strlit("");
        assert(""@ =~= Seq::<char>::empty());
    }
    let items = match read_items(output.as_str(), "") {
        None => {
            return Err(ActivityError::decode(output.as_str()));
        },
        Some(items) => items,
    };
    let ghost texts = json_items(output@, Seq::empty())->0;
    let mut first: Option<ContainerInfo> = None;
    let mut i: usize = 0;
    while i < items.len()
        invariant
            i <= items.len(),
            items.deep_view() == texts,
            output_view(inspection) == Ok::<Seq<char>, ErrorView>(output@),
            json_items(output@, Seq::empty()) == Some(texts),
            forall|j: int| 0 <= j < i ==> (#[trigger] described_container(texts[j])) is Some,
            i == 0 ==> first is None,
            i > 0 ==> (first matches Some(info) && described_container(texts[0]) == Some(info@)),
        decreases items.len() - i,
    {
        let item = items[i].as_str();
        assert(item@ == texts[i as int]);
        match read_container(item) {
            None => {
                assert(described_container(texts[i as int]) is None);
                return Err(ActivityError::decode(output.as_str()));
            },
            Some(info) => {
                if i == 0 {
                    first = Some(info);
                }
            },
        }
        i += 1;
    }
    assert(all_containers(texts));
    Ok(first)
}

/// One line of the runtime's listing of containers.
#[derive(Clone, Debug, PartialEq, Eq)]
pub struct ContainerSummary {
    pub id: String,
    pub name: String,
    pub image: String,
    pub state: String,
    pub status: String,
}

/// The mathematical counterpart of [`ContainerSummary`].
pub struct ContainerSummaryView {
    pub id: Seq<char>,
    pub name: Seq<char>,
    pub image: Seq<char>,
    pub state: Seq<char>,
    pub status: Seq<char>,
}

impl View for ContainerSummary {
    type V = ContainerSummaryView;

    open spec fn view(&self) -> ContainerSummaryView {
        ContainerSummaryView {
            id: self.id@,
            name: self.name@,
            image: self.image@,
            state: self.state@,
            status: self.status@,
        }
    }
}

/// The command that lists the running containers, or all containers where
/// `all` is set, one JSON object to a line.
pub fn list_command(all: bool) -> (command: Command)
    ensures
        command@ == if all {
            seq!["ps"@, "--format"@, "{{json .}}"@, "-a"@]
        } else {
            seq!["ps"@, "--format"@, "{{json .}}"@]
        },
{
    let mut args: Vec<String> = Vec::new();
    args.push(String::from_str("ps"));
    args.push(String::from_str("--format"));
    args.push(String::from_str("{{json .}}"));
    if all {
        args.push(String::from_str("-a"));
    }
    let command = Command { args };
    assert(command@ =~= if all {
        seq!["ps"@, "--format"@, "{{json .}}"@, "-a"@]
    } else {
        seq!["ps"@, "--format"@, "{{json .}}"@]
    });
    command
}

/// The container that a line of the listing describes by its string
/// members `ID`, `Names`, `Image`, `State` and `Status`, if it has all
/// five.
pub open spec fn summary_of(
    id: Option<Seq<char>>,
    name: Option<Seq<char>>,
    image: Option<Seq<char>>,
    state: Option<Seq<char>>,
    status: Option<Seq<char>>,
) -> Option<ContainerSummaryView> {
    if id is Some && name is Some && image is Some && state is Some && status is Some {
        Some(
            ContainerSummaryView {
                id: id->0,
                name: name->0,
                image: image->0,
                state: state->0,
                status: status->0,
            },
        )
    } else {
        None
    }
}

/// The container that the line `line` describes.
pub open spec fn listed_container(line: Seq<char>) -> Option<ContainerSummaryView> {
    summary_of(
        text_member(line, "/ID"@),
        text_member(line, "/Names"@),
        text_member(line, "/Image"@),
        text_member(line, "/State"@),
        text_member(line, "/Status"@),
    )
}

/// Builds a summary from the five members already read from one line of
/// the listing.
pub fn decide_summary(
    id: Option<String>,
    name: Option<String>,
    image: Option<String>,
    state: Option<String>,
    status: Option<String>,
) -> (summary: Option<ContainerSummary>)
    ensures
        summary is Some <==> summary_of(
            opt_text(id),
            opt_text(name),
            opt_text(image),
            opt_text(state),
            opt_text(status),
        ) is Some,
        summary matches Some(s) ==> summary_of(
            opt_text(id),
            opt_text(name),
            opt_text(image),
            opt_text(state),
            opt_text(status),
        ) == Some(s@),
{
    match (id, name, image, state, status) {
        (Some(id), Some(name), Some(image), Some(state), Some(status)) => Some(
            ContainerSummary { id, name, image, state, status },
        ),
        _ => None,
    }
}

/// Reads one line of the listing.
pub fn read_summary(line: &str) -> (summary: Option<ContainerSummary>)
    ensures
        summary is Some <==> listed_container(line@) is Some,
        summary matches Some(s) ==> listed_container(line@) == Some(s@),
{
    decide_summary(
        read_text(line, "/ID"),
        read_text(line, "/Names"),
        read_text(line, "/Image"),
        read_text(line, "/State"),
        read_text(line, "/Status"),
    )
}

/// The containers that the lines describe, blank lines left out; a decode
/// error with the first line that is neither blank nor a container.
pub open spec fn summaries_of(lines: Seq<Seq<char>>) -> Result<Seq<ContainerSummaryView>, ErrorView>
    decreases lines.len(),
{
    if lines.len() == 0 {
        Ok(Seq::empty())
    } else {
        match summaries_of(lines.drop_last()) {
            Err(e) => Err(e),
            Ok(before) => if trimmed(lines.last()).len() == 0 {
                Ok(before)
            } else {
                match listed_container(lines.last()) {
                    Some(summary) => Ok(before.push(summary)),
                    None => Err(decode(lines.last())),
                }
            },
        }
    }
}

/// What the outcome of a listing tells: the containers of its lines, or
/// the failure of the command.
pub open spec fn list_outcome(listing: Result<Seq<char>, ErrorView>) -> Result<
    Seq<ContainerSummaryView>,
    ErrorView,
> {
    match listing {
        Err(e) => Err(e),
        Ok(output) => summaries_of(split_lines(output)),
    }
}

/// The views of a list of summaries, in order.
pub open spec fn summaries_view(summaries: Seq<ContainerSummary>) -> Seq<ContainerSummaryView> {
    Seq::new(summaries.len(), |i: int| summaries[i]@)
}

/// Reads the containers from the outcome of a listing.
pub fn list_containers(listing: Result<String, ActivityError>) -> (r: Result<
    Vec<ContainerSummary>,
    ActivityError,
>)
    ensures
        match r {
            Ok(summaries) => list_outcome(output_view(listing)) == Ok::<
                Seq<ContainerSummaryView>,
                ErrorView,
            >(summaries_view(summaries@)),
            Err(e) => list_outcome(output_view(listing)) == Err::<
                Seq<ContainerSummaryView>,
                ErrorView,
            >(e@),
        },
{
    let output = match listing {
        Err(e) => {
            return Err(e);
        },
        Ok(output) => output,
    };
    let all_lines = lines(output.as_str());
    let ghost texts = split_lines(output@);
    let mut summaries: Vec<ContainerSummary> = Vec::new();
    let mut i: usize = 0;
    assert(texts.take(0) =~= Seq::<Seq<char>>::empty());
    assert(summaries_view(summaries@) =~= Seq::<ContainerSummaryView>::empty());
    while i < all_lines.len()
        invariant
            i <= all_lines.len(),
            all_lines.deep_view() == texts,
            texts == split_lines(output@),
            output_view(listing) == Ok::<Seq<char>, ErrorView>(output@),
            summaries_of(texts.take(i as int)) == Ok::<Seq<ContainerSummaryView>, ErrorView>(
                summaries_view(summaries@),
            ),
        decreases all_lines.len() - i,
    {
        let line = all_lines[i].as_str();
        proof {
            assert(line@ == texts[i as int]);
            assert(texts.take(i + 1).drop_last() =~= texts.take(i as int));
            assert(texts.take(i + 1).last() == texts[i as int]);
        }
        if !is_blank(line) {
            match read_summary(line) {
                None => {
                    proof {
                        lemma_summaries_fail_on(texts, i as int);
                    }
                    return Err(ActivityError::decode(line));
                },
                Some(summary) => {
                    let ghost before = summaries_view(summaries@);
                    summaries.push(summary);
                    assert(summaries_view(summaries@) =~= before.push(summary@));
                },
            }
        }
        i += 1;
    }
    assert(texts.take(texts.len() as int) =~= texts);
    Ok(summaries)
}

/// The first line that is neither blank nor a container decides the
/// outcome, whatever follows it.
proof fn lemma_summaries_fail_on(lines: Seq<Seq<char>>, i: int)
    requires
        0 <= i < lines.len(),
        summaries_of(lines.take(i)) is Ok,
        trimmed(lines[i]).len() != 0,
        listed_container(lines[i]) is None,
    ensures
        summaries_of(lines) == Err::<Seq<ContainerSummaryView>, ErrorView>(decode(lines[i])),
    decreases lines.len() - i,
{
    let upto = lines.take(i + 1);
    assert(upto.drop_last() =~= lines.take(i));
    assert(upto.last() == lines[i]);
    assert(summaries_of(upto) == Err::<Seq<ContainerSummaryView>, ErrorView>(decode(lines[i])));
    lemma_summaries_error_stays(lines, i + 1);
}

/// Once the lines up to `n` have failed, further lines change nothing.
proof fn lemma_summaries_error_stays(lines: Seq<Seq<char>>, n: int)
    requires
        0 <= n <= lines.len(),
        summaries_of(lines.take(n)) is Err,
    ensures
        summaries_of(lines) == summaries_of(lines.take(n)),
    decreases lines.len() - n,
{
    if n < lines.len() {
        let upto = lines.take(n + 1);
        assert(upto.drop_last() =~= lines.take(n));
        lemma_summaries_error_stays(lines, n + 1);
    } else {
        assert(lines.take(n) =~= lines);
    }
}

/// What the runtime says where a container's name is taken.
pub const CONFLICT: &'static str = "Conflict";

/// What the runtime says as well where a container's name is taken.
pub const ALREADY_IN_USE: &'static str = "is already in use";

/// The failure says that the container's name is taken.
pub open spec fn name_taken(e: ErrorView) -> bool {
    mentions(e, CONFLICT@) || mentions(e, ALREADY_IN_USE@)
}

/// Where a run stands between two commands.
#[derive(Clone, Debug, PartialEq, Eq)]
pub enum Run {
    /// The run was requested.
    AwaitingRun { name: String },
    /// The run failed with `failure` because the name is taken; the
    /// inspection of the container that holds it was requested.
    AwaitingInspect { name: String, failure: ActivityError },
}

/// The mathematical counterpart of [`Run`].
pub enum RunView {
    AwaitingRun { name: Seq<char> },
    AwaitingInspect { name: Seq<char>, failure: ErrorView },
}

impl View for Run {
    type V = RunView;

    open spec fn view(&self) -> RunView {
        match self {
            Run::AwaitingRun { name } => RunView::AwaitingRun { name: name@ },
            Run::AwaitingInspect { name, failure } => RunView::AwaitingInspect {
                name: name@,
                failure: failure@,
            },
        }
    }
}

/// Where a run goes after a command.
pub type RunProgress = ProgressView<RunView, Seq<Seq<char>>, Seq<char>>;

/// What a run returns once the container that holds the name has been
/// inspected: its id where it runs; the state it is in, as an error, where
/// it does not; and the failure of the run itself where the inspection
/// finds no container.
pub open spec fn after_inspect(
    name: Seq<char>,
    failure: ErrorView,
    inspected: Result<Option<ContainerInfoView>, ErrorView>,
) -> Result<Seq<char>, ErrorView> {
    match inspected {
        Err(e) => Err(e),
        Ok(None) => Err(failure),
        Ok(Some(info)) => if info.state == RUNNING@ {
            Ok(info.id)
        } else {
            Err(ErrorView::ContainerNotRunning { name, state: info.state })
        },
    }
}

/// The rule of a run: what follows the outcome of the last command.
///
/// A run that succeeds yields the new container's id. A run that fails
/// because the name is taken is followed by an inspection; any other
/// failure ends the run.
pub open spec fn run_follows(state: RunView, outcome: Result<Seq<char>, ErrorView>) -> RunProgress {
    match state {
        RunView::AwaitingRun { name } => match outcome {
            Ok(id) => RunProgress::Done(Ok(id)),
            Err(e) => if name_taken(e) {
                RunProgress::Continue {
                    state: RunView::AwaitingInspect { name, failure: e },
                    call: seq!["inspect"@, name],
                }
            } else {
                RunProgress::Done(Err(e))
            },
        },
        RunView::AwaitingInspect { name, failure } => RunProgress::Done(
            after_inspect(name, failure, inspect_outcome(outcome)),
        ),
    }
}

/// Starts a run of the container `name` from `config`.
pub fn run_container(name: &str, config: &ContainerConfig) -> (start: (Run, Command))
    ensures
        start.0@ == (RunView::AwaitingRun { name: name@ }),
        start.1@ == run_args(name@, *config),
{
    (Run::AwaitingRun { name: String::from_str(name) }, run_command(name, config))
}

/// Decides what a run returns from what the inspection told.
pub fn decide_run(name: String, failure: ActivityError, inspected: Result<
    Option<ContainerInfo>,
    ActivityError,
>) -> (r: Result<String, ActivityError>)
    ensures
        output_view(r) == after_inspect(name@, failure@, info_view(inspected)),
{
    match inspected {
        Err(e) => Err(e),
        Ok(None) => Err(failure),
        Ok(Some(info)) => if same_text(info.state.as_str(), RUNNING) {
            Ok(info.id)
        } else {
            Err(ActivityError::ContainerNotRunning { name, state: info.state })
        },
    }
}

/// Advances a run by the outcome of its last command.
pub fn advance_run(state: Run, outcome: Result<String, ActivityError>) -> (next: Progress<
    Run,
    Command,
    String,
>)
    ensures
        next@ == run_follows(state@, output_view(outcome)),
{
    match state {
        Run::AwaitingRun { name } => match outcome {
            Ok(id) => Progress::Done(Ok(id)),
            Err(e) => if error_mentions(&e, CONFLICT) || error_mentions(&e, ALREADY_IN_USE) {
                let call = inspect_command(name.as_str());
                Progress::Continue { state: Run::AwaitingInspect { name, failure: e }, call }
            } else {
                Progress::Done(Err(e))
            },
        },
        Run::AwaitingInspect { name, failure } => Progress::Done(
            decide_run(name, failure, inspect_container(outcome)),
        ),
    }
}

/// A run whose name is held by a running container ends in that
/// container's id: running it again changes nothing.
pub proof fn lemma_run_is_idempotent(
    name: Seq<char>,
    failure: ErrorView,
    id: Seq<char>,
)
    ensures
        after_inspect(name, failure, Ok(Some(ContainerInfoView { id, state: RUNNING@ }))) == Ok::<
            Seq<char>,
            ErrorView,
        >(id),
{
}

/// Where a start stands between two commands.
#[derive(Clone, Debug, PartialEq, Eq)]
pub enum Start {
    /// The inspection was requested.
    AwaitingInspect { name: String },
    /// The start was requested.
    AwaitingStart,
}

/// The mathematical counterpart of [`Start`].
pub enum StartView {
    AwaitingInspect { name: Seq<char> },
    AwaitingStart,
}

impl View for Start {
    type V = StartView;

    open spec fn view(&self) -> StartView {
        match self {
            Start::AwaitingInspect { name } => StartView::AwaitingInspect { name: name@ },
            Start::AwaitingStart => StartView::AwaitingStart,
        }
    }
}

/// Where a start goes after a command.
pub type StartProgress = ProgressView<StartView, Seq<Seq<char>>, ()>;

/// The rule of a start: what follows the outcome of the last command.
///
/// A container that runs is left alone; one that exists and does not run
/// is started; one that does not exist is an error.
pub open spec fn start_follows(
    state: StartView,
    outcome: Result<Seq<char>, ErrorView>,
) -> StartProgress {
    match state {
        StartView::AwaitingInspect { name } => match inspect_outcome(outcome) {
            Err(e) => StartProgress::Done(Err(e)),
            Ok(None) => StartProgress::Done(Err(ErrorView::ContainerNotFound { name })),
            Ok(Some(info)) => if info.state == RUNNING@ {
                StartProgress::Done(Ok(()))
            } else {
                StartProgress::Continue {
                    state: StartView::AwaitingStart,
                    call: seq!["start"@, name],
                }
            },
        },
        StartView::AwaitingStart => match outcome {
            Ok(_) => StartProgress::Done(Ok(())),
            Err(e) => StartProgress::Done(Err(e)),
        },
    }
}

/// Starts a start of the container `name`: the first command inspects it.
pub fn start_container(name: &str) -> (start: (Start, Command))
    ensures
        start.0@ == (StartView::AwaitingInspect { name: name@ }),
        start.1@ == seq!["inspect"@, name@],
{
    (Start::AwaitingInspect { name: String::from_str(name) }, inspect_command(name))
}

/// Advances a start by the outcome of its last command.
pub fn advance_start(state: Start, outcome: Result<String, ActivityError>) -> (next: Progress<
    Start,
    Command,
    (),
>)
    ensures
        next@ == start_follows(state@, output_view(outcome)),
{
    match state {
        Start::AwaitingInspect { name } => match inspect_container(outcome) {
            Err(e) => Progress::Done(Err(e)),
            Ok(None) => Progress::Done(Err(ActivityError::ContainerNotFound { name })),
            Ok(Some(info)) => if same_text(info.state.as_str(), RUNNING) {
                Progress::Done(Ok(()))
            } else {
                let mut args: Vec<String> = Vec::new();
                args.push(String::from_str("start"));
                args.push(name);
                let call = Command { args };
                assert(call@ =~= seq!["start"@, name@]);
                Progress::Continue { state: Start::AwaitingStart, call }
            },
        },
        Start::AwaitingStart => match outcome {
            Ok(_) => Progress::Done(Ok(())),
            Err(e) => Progress::Done(Err(e)),
        },
    }
}

/// Ensures that the container `name` does not run: it is stopped where it
/// exists, and a stop that fails is not an error.
pub fn stop_container(name: &str) -> (start: (GuardedState, Command))
    ensures
        start.0@ == GuardedStateView::AwaitingCheck(
            GuardedView {
                action: seq!["stop"@, name@],
                act_when_exists: true,
                settled: Seq::empty(),
                after: After::Forgiven,
            },
        ),
        start.1@ == seq!["inspect"@, "--type"@, CONTAINER@, name@],
{
    let mut args: Vec<String> = Vec::new();
    args.push(String::from_str("stop"));
    args.push(String::from_str(name));
    let action = Command { args };
    assert(action@ =~= seq!["stop"@, name@]);
    let plan = Guarded {
        action,
        act_when_exists: true,
        settled: String::new(),
        after: After::Forgiven,
    };
    (GuardedState::AwaitingCheck(plan), check_exists_command(CONTAINER, name))
}

/// The arguments that remove the container `name`, by force where `force`
/// is set.
pub open spec fn rm_args(name: Seq<char>, force: bool) -> Seq<Seq<char>> {
    if force {
        seq!["rm"@, "-f"@, name]
    } else {
        seq!["rm"@, name]
    }
}

/// Ensures that the container `name` is gone: it is removed where it
/// exists.
pub fn rm_container(name: &str, force: bool) -> (start: (GuardedState, Command))
    ensures
        start.0@ == GuardedStateView::AwaitingCheck(
            GuardedView {
                action: rm_args(name@, force),
                act_when_exists: true,
                settled: Seq::empty(),
                after: After::Settled,
            },
        ),
        start.1@ == seq!["inspect"@, "--type"@, CONTAINER@, name@],
{
    let mut args: Vec<String> = Vec::new();
    args.push(String::from_str("rm"));
    if force {
        args.push(String::from_str("-f"));
    }
    args.push(String::from_str(name));
    let action = Command { args };
    assert(action@ =~= rm_args(name@, force));
    let plan = Guarded {
        action,
        act_when_exists: true,
        settled: String::new(),
        after: After::Settled,
    };
    (GuardedState::AwaitingCheck(plan), check_exists_command(CONTAINER, name))
}

} // verus!
