//! The command surface of the controller: which arguments each operation
//! sends, and how the outcome of one invocation is read.
//!
//! Every operation is one invocation of the controller's program. This module
//! builds the argument vector; running the program is left to the caller, who
//! hands what came back to [`command_result`].

pub mod models;

pub use models::{BrowseItem, BrowseResult, PlaybackState, Zone};

use crate::text::{
    decimal, lemma_line_ends_are_trimmed, push_decimal, signed_decimal, signed_decimal_string,
    solid_ends, trim, trimmed,
};
use vstd::prelude::*;
use vstd::string::*;

verus! {

/// The arguments of one invocation of the controller.
#[derive(Debug, Clone, PartialEq, Eq)]
pub struct Command {
    pub args: Vec<String>,
}

impl View for Command {
    type V = Seq<Seq<char>>;

    open spec fn view(&self) -> Seq<Seq<char>> {
        self.args.deep_view()
    }
}

/// What one invocation of the controller left behind.
#[derive(Debug, Clone)]
pub struct ProcessOutput {
    /// Whether the program ended with exit code zero.
    pub success: bool,
    /// The exit code.
    pub code: i32,
    /// The standard output, as text.
    pub stdout: String,
    /// The standard error output, as text.
    pub stderr: String,
}

/// The message that reports a failed invocation: the standard error output,
/// or the standard output where that is empty, each without the whitespace
/// around it; the exit code where both are empty.
pub open spec fn failure_message(out: ProcessOutput) -> Seq<char> {
    if out.stderr@.len() > 0 {
        trimmed(out.stderr@)
    } else if out.stdout@.len() > 0 {
        trimmed(out.stdout@)
    } else {
        "exit code "@ + signed_decimal(out.code as int)
    }
}

/// Reads the outcome of one invocation: its standard output where it
/// succeeded, the failure message where it did not.
pub fn command_result(out: ProcessOutput) -> (r: Result<String, String>)
    ensures
        out.success ==> r == Ok::<String, String>(out.stdout),
        !out.success ==> r.is_err() && r->Err_0@ == failure_message(out),
{
    if out.success {
        Ok(out.stdout)
    } else if !out.stderr.as_str().is_empty() {
        Err(trim(out.stderr.as_str()).to_string())
    } else if !out.stdout.as_str().is_empty() {
        Err(trim(out.stdout.as_str()).to_string())
    } else {
        let number = signed_decimal_string(out.code as i64);
        Err("exit code ".to_string().concat(number.as_str()))
    }
}

/// Where the controller has printed a message on a line of its own, the
/// failure is reported as the message without the line end: on standard
/// error, or on standard output where standard error is empty.
pub proof fn lemma_failure_reports_the_message(out: ProcessOutput, message: Seq<char>)
    requires
        message.len() > 0,
        solid_ends(message),
    ensures
        out.stderr@ == message.push('\n') ==> failure_message(out) == message,
        out.stderr@.len() == 0 && out.stdout@ == message.push('\n') ==> failure_message(out)
            == message,
{
    lemma_line_ends_are_trimmed(message);
}

pub open spec fn get_zones_args() -> Seq<Seq<char>> {
    seq!["zones"@, "--json"@]
}

pub open spec fn set_zone_args(name: Seq<char>) -> Seq<Seq<char>> {
    seq!["zone"@, "set"@, name]
}

pub open spec fn playpause_args() -> Seq<Seq<char>> {
    seq!["playpause"@]
}

pub open spec fn next_args() -> Seq<Seq<char>> {
    seq!["next"@]
}

pub open spec fn prev_args() -> Seq<Seq<char>> {
    seq!["prev"@]
}

/// How a switch is written on the command line.
pub open spec fn on_off(on: bool) -> Seq<char> {
    if on {
        "on"@
    } else {
        "off"@
    }
}

pub open spec fn shuffle_args(on: bool) -> Seq<Seq<char>> {
    seq!["shuffle"@, on_off(on)]
}

pub open spec fn set_loop_args(mode: Seq<char>) -> Seq<Seq<char>> {
    seq!["loop"@, mode]
}

pub open spec fn radio_args(on: bool) -> Seq<Seq<char>> {
    seq!["radio"@, on_off(on)]
}

pub open spec fn volume_args(output: Seq<char>, value: Seq<char>) -> Seq<Seq<char>> {
    seq!["volume"@, value, "--output"@, output]
}

pub open spec fn mute_args(output: Seq<char>) -> Seq<Seq<char>> {
    seq!["mute"@, "--output"@, output]
}

pub open spec fn unmute_args(output: Seq<char>) -> Seq<Seq<char>> {
    seq!["unmute"@, "--output"@, output]
}

pub open spec fn browse_args() -> Seq<Seq<char>> {
    seq!["browse"@, "--json"@]
}

pub open spec fn search_args(query: Seq<char>) -> Seq<Seq<char>> {
    seq!["search"@, query, "--json"@]
}

/// The controller counts the entries of a listing from one.
pub open spec fn select_args(index: nat) -> Seq<Seq<char>> {
    seq!["select"@, decimal(index + 1), "--json"@]
}

pub open spec fn back_args() -> Seq<Seq<char>> {
    seq!["back"@, "--json"@]
}

fn command1(a: &str) -> (c: Command)
    ensures
        c@ == seq![a@],
{
    let mut args: Vec<String> = Vec::new();
    args.push(a.to_string());
    let c = Command { args };
    c
}

fn command2(a: &str, b: &str) -> (c: Command)
    ensures
        c@ == seq![a@, b@],
{
    let mut args: Vec<String> = Vec::new();
    args.push(a.to_string());
    args.push(b.to_string());
    let c = Command { args };
    c
}

fn command3(a: &str, b: &str, c: &str) -> (cmd: Command)
    ensures
        cmd@ == seq![a@, b@, c@],
{
    let mut args: Vec<String> = Vec::new();
    args.push(a.to_string());
    args.push(b.to_string());
    args.push(c.to_string());
    let cmd = Command { args };
    cmd
}

fn command4(a: &str, b: &str, c: &str, d: &str) -> (cmd: Command)
    ensures
        cmd@ == seq![a@, b@, c@, d@],
{
    let mut args: Vec<String> = Vec::new();
    args.push(a.to_string());
    args.push(b.to_string());
    args.push(c.to_string());
    args.push(d.to_string());
    let cmd = Command { args };
    cmd
}

fn switch_word(on: bool) -> (w: &'static str)
    ensures
        w@ == on_off(on),
{
    if on {
        "on"
    } else {
        "off"
    }
}

/// Lists all zones with their current state; the answer is JSON.
pub fn get_zones() -> (c: Command)
    ensures
        c@ == get_zones_args(),
{
    command2("zones", "--json")
}

/// Makes the zone of that display name the active one.
pub fn set_zone(name: &str) -> (c: Command)
    ensures
        c@ == set_zone_args(name@),
{
    command3("zone", "set", name)
}

/// Toggles between playing and paused.
pub fn playpause() -> (c: Command)
    ensures
        c@ == playpause_args(),
{
    command1("playpause")
}

/// Skips to the next track.
pub fn next() -> (c: Command)
    ensures
        c@ == next_args(),
{
    command1("next")
}

/// Skips to the previous track.
pub fn prev() -> (c: Command)
    ensures
        c@ == prev_args(),
{
    command1("prev")
}

/// Switches shuffle on or off.
pub fn shuffle(on: bool) -> (c: Command)
    ensures
        c@ == shuffle_args(on),
{
    command2("shuffle", switch_word(on))
}

/// Sets the loop mode: `disabled`, `loop` or `loop_one`.
pub fn set_loop(mode: &str) -> (c: Command)
    ensures
        c@ == set_loop_args(mode@),
{
    command2("loop", mode)
}

/// Switches auto-radio on or off.
pub fn radio(on: bool) -> (c: Command)
    ensures
        c@ == radio_args(on),
{
    command2("radio", switch_word(on))
}

/// Changes the volume of an output; the value is absolute, or relative with
/// a sign, such as `+5`.
pub fn volume(output: &str, value: &str) -> (c: Command)
    ensures
        c@ == volume_args(output@, value@),
{
    command4("volume", value, "--output", output)
}

/// Mutes an output.
pub fn mute(output: &str) -> (c: Command)
    ensures
        c@ == mute_args(output@),
{
    command3("mute", "--output", output)
}

/// Unmutes an output.
pub fn unmute(output: &str) -> (c: Command)
    ensures
        c@ == unmute_args(output@),
{
    command3("unmute", "--output", output)
}

/// Opens the library at its root; the answer is JSON.
pub fn browse() -> (c: Command)
    ensures
        c@ == browse_args(),
{
    command2("browse", "--json")
}

/// Searches the library; the answer is JSON.
pub fn search(query: &str) -> (c: Command)
    ensures
        c@ == search_args(query@),
{
    command3("search", query, "--json")
}

/// Selects the entry at the zero-based index of the current listing; the
/// controller is sent the one-based position. The answer is JSON.
pub fn select(index: usize) -> (c: Command)
    ensures
        c@ == select_args(index as nat),
{
    let mut position = String::new();
    push_decimal(&mut position, index as u128 + 1);
    command3("select", position.as_str(), "--json")
}

/// Goes back one level in the library; the answer is JSON.
pub fn back() -> (c: Command)
    ensures
        c@ == back_args(),
{
    command2("back", "--json")
}

} // verus!
