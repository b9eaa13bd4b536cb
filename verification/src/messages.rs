//! The texts that the engine shows: what an operation is called in a
//! failure, in a prompt and in the access log.

use vstd::prelude::*;
use vstd::string::*;
use crate::net::{decimal, port_text};

verus! {

/// `"{class} access to \"{target}\""`.
pub open spec fn access_text(class: Seq<char>, target: Seq<char>) -> Seq<char> {
    class + " access to \""@ + target + "\""@
}

/// `"read access to <{label}>"`: the path itself is not shown.
pub open spec fn blind_read_text(label: Seq<char>) -> Seq<char> {
    "read access to <"@ + label + ">"@
}

/// `"network access to \"{host}:{port}\""`.
pub open spec fn net_access_text(host: Seq<char>, port: u16) -> Seq<char> {
    "network access to \""@ + host + ":"@ + decimal(port as nat) + "\""@
}

/// `"access to open a plugin: {target}"`.
pub open spec fn plugin_access_text(target: Seq<char>) -> Seq<char> {
    "access to open a plugin: "@ + target
}

/// `"Deno requests {class} access to \"{target}\""`.
pub open spec fn request_text(class: Seq<char>, target: Seq<char>) -> Seq<char> {
    "Deno requests "@ + class + " access to \""@ + target + "\""@
}

/// `"Deno requests {class} access"`.
pub open spec fn class_request_text(class: Seq<char>) -> Seq<char> {
    "Deno requests "@ + class + " access"@
}

/// The question put to the operator.
pub open spec fn prompt_text(message: Seq<char>) -> Seq<char> {
    "\u{fe0f}\u{26a0}\u{fe0f}  "@ + message + ". Grant? [g/d (g = grant, d = deny)] "@
}

/// The question put again after an answer that is neither grant nor deny.
pub open spec fn retry_text(given: char) -> Seq<char> {
    "Unrecognized option '"@ + seq![given] + "' [g/d (g = grant, d = deny)] "@
}

/// The record of a granted access.
pub open spec fn granted_text(message: Seq<char>) -> Seq<char> {
    "\u{26a0}\u{fe0f}\u{fe0f}  Granted "@ + message
}

pub fn access_message(class: &str, target: &str) -> (text: String)
    ensures
        text@ == access_text(class@, target@),
{
    let mut text = String::from_str(class);
    text.append(" access to \"");
    text.append(target);
    text.append("\"");
    text
}

pub fn blind_read_message(label: &str) -> (text: String)
    ensures
        text@ == blind_read_text(label@),
{
    let mut text = String::from_str("read access to <");
    text.append(label);
    text.append(">");
    text
}

pub fn net_access_message(host: &str, port: u16) -> (text: String)
    ensures
        text@ == net_access_text(host@, port),
{
    let mut text = String::from_str("network access to \"");
    text.append(host);
    text.append(":");
    let digits = port_text(port);
    text.append(digits.as_str());
    text.append("\"");
    text
}

pub fn plugin_access_message(target: &str) -> (text: String)
    ensures
        text@ == plugin_access_text(target@),
{
    let mut text = String::from_str("access to open a plugin: ");
    text.append(target);
    text
}

pub fn request_message(class: &str, target: &str) -> (text: String)
    ensures
        text@ == request_text(class@, target@),
{
    let mut text = String::from_str("Deno requests ");
    text.append(class);
    text.append(" access to \"");
    text.append(target);
    text.append("\"");
    text
}

pub fn class_request_message(class: &str) -> (text: String)
    ensures
        text@ == class_request_text(class@),
{
    let mut text = String::from_str("Deno requests ");
    text.append(class);
    text.append(" access");
    text
}

/// The question to write before the operator's answer is read.
pub fn prompt_message(message: &str) -> (text: String)
    ensures
        text@ == prompt_text(message@),
{
    let mut text = String::from_str("\u{fe0f}\u{26a0}\u{fe0f}  ");
    text.append(message);
    text.append(". Grant? [g/d (g = grant, d = deny)] ");
    text
}

/// The record to log when a check has passed.
pub fn log_perm_access(message: &str) -> (text: String)
    ensures
        text@ == granted_text(message@),
{
    let mut text = String::from_str("\u{26a0}\u{fe0f}\u{fe0f}  Granted ");
    text.append(message);
    text
}

} // verus!
