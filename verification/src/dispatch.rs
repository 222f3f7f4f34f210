//! The answers to the editor: what each request makes of the session state.
//! Every handler here only reads the state. A file without owners is no error:
//! it gets no hover, no annotation, and a message of its own from the command.

use vstd::prelude::*;
use vstd::string::*;
use serde_json::Value;
use crate::json::{as_string, string_of};
use crate::session::{SessionState, SessionView};
use crate::text::{opt_text, prefixed};
use crate::uri::{parse_uri, parsed_uri};

verus! {

/// The text of a hover: a block of Markdown.
#[derive(Debug, PartialEq, Eq)]
pub struct HoverReply {
    /// The Markdown text.
    pub contents: String,
}

/// A place in a document.
#[derive(Clone, Copy, Debug, PartialEq, Eq, Structural)]
pub struct Position {
    /// The line, counted from 0.
    pub line: u32,
    /// The column, counted from 0.
    pub character: u32,
}

/// A stretch of a document.
#[derive(Clone, Copy, Debug, PartialEq, Eq, Structural)]
pub struct Range {
    /// Where it starts.
    pub start: Position,
    /// Where it ends.
    pub end: Position,
}

/// Whether the server wants the text of open documents, and how.
#[derive(Clone, Copy, Debug, PartialEq, Eq, Structural)]
pub enum TextDocumentSync {
    /// Not at all.
    Off,
    /// Whole documents.
    Full,
    /// Changes only.
    Incremental,
}

/// One inline annotation.
#[derive(Debug, PartialEq, Eq)]
pub struct OwnerHint {
    /// Where the annotation is anchored.
    pub position: Position,
    /// What the annotation shows.
    pub label: String,
    /// What it shows when pointed at.
    pub tooltip: String,
    /// Whether space is left before it.
    pub padding_left: bool,
    /// Whether space is left after it.
    pub padding_right: bool,
}

/// What a command makes the server do.
#[derive(Debug, PartialEq, Eq)]
pub enum CommandReply {
    /// Nothing: the command or its arguments were not understood.
    Ignored,
    /// Show the owners of the file; the message.
    Owners(String),
    /// Show that no rule matches the file; the message.
    NoRule(String),
}

/// What the server offers.
#[derive(Debug, PartialEq, Eq)]
pub struct Capabilities {
    /// Hover is served.
    pub hover_provider: bool,
    /// Inline annotations are served.
    pub inlay_hint_provider: bool,
    /// The commands that are served.
    pub commands: Vec<String>,
    /// Whether the server wants the text of open documents. It never does: it
    /// asks whose a file is, not what is in it.
    pub text_document_sync: TextDocumentSync,
}

/// The result of the initialisation handshake.
#[derive(Debug, PartialEq, Eq)]
pub struct InitializeReply {
    /// What the server offers.
    pub capabilities: Capabilities,
    /// The server's name.
    pub name: String,
    /// The server's version.
    pub version: String,
}

/// The mathematical value of an [`OwnerHint`].
pub struct HintView {
    pub position: Position,
    pub label: Seq<char>,
    pub tooltip: Seq<char>,
    pub padding_left: bool,
    pub padding_right: bool,
}

/// The mathematical value of a [`CommandReply`].
pub enum CommandView {
    Ignored,
    Owners(Seq<char>),
    NoRule(Seq<char>),
}

impl View for OwnerHint {
    type V = HintView;

    open spec fn view(&self) -> HintView {
        HintView {
            position: self.position,
            label: self.label@,
            tooltip: self.tooltip@,
            padding_left: self.padding_left,
            padding_right: self.padding_right,
        }
    }
}

impl View for CommandReply {
    type V = CommandView;

    open spec fn view(&self) -> CommandView {
        match self {
            CommandReply::Ignored => CommandView::Ignored,
            CommandReply::Owners(text) => CommandView::Owners(text@),
            CommandReply::NoRule(text) => CommandView::NoRule(text@),
        }
    }
}

/// What stands before the owners in a hover.
pub open spec fn hover_heading() -> Seq<char> {
    "**CODEOWNERS:** "@
}

/// What stands before the owners in an annotation.
pub open spec fn hint_heading() -> Seq<char> {
    "Owned by: "@
}

/// The tooltip of every annotation.
pub open spec fn hint_tooltip() -> Seq<char> {
    "File ownership from CODEOWNERS"@
}

/// What stands before the owners in the message of the command.
pub open spec fn message_heading() -> Seq<char> {
    "Owners: "@
}

/// The message for a file that no rule matches.
pub open spec fn no_rule_message() -> Seq<char> {
    "No CODEOWNERS rule matches this file"@
}

/// The name of the one command.
pub open spec fn show_owner_command() -> Seq<char> {
    "showOwner"@
}

/// The name under which the server introduces itself.
pub open spec fn server_name() -> Seq<char> {
    "codeowners-lsp"@
}

/// The very start of a document.
pub open spec fn origin() -> Position {
    Position { line: 0, character: 0 }
}

/// The annotation for a file with these owners: one marker at the very start
/// of the document, with space after it and none before.
pub open spec fn hint_of(owners: Seq<char>) -> HintView {
    HintView {
        position: origin(),
        label: hint_heading() + owners,
        tooltip: hint_tooltip(),
        padding_left: false,
        padding_right: true,
    }
}

/// The hover text for a line of owners, if there is one.
pub open spec fn hover_of(owners: Option<Seq<char>>) -> Option<Seq<char>> {
    match owners {
        Some(line) => Some(hover_heading() + line),
        None => None,
    }
}

/// The annotations for a line of owners: exactly one if there is a line, else
/// no list at all.
pub open spec fn hints_of(owners: Option<Seq<char>>) -> Option<Seq<HintView>> {
    match owners {
        Some(line) => Some(seq![hint_of(line)]),
        None => None,
    }
}

/// What the command shows for a line of owners, or for none.
pub open spec fn notice_of(owners: Option<Seq<char>>) -> CommandView {
    match owners {
        Some(line) => CommandView::Owners(message_heading() + line),
        None => CommandView::NoRule(no_rule_message()),
    }
}

/// The file that a command is about: the first argument, where it is a JSON
/// string that parses as a URI.
pub open spec fn command_target(arguments: Seq<Value>) -> Option<Seq<char>> {
    if arguments.len() == 0 {
        None
    } else {
        match string_of(arguments[0]) {
            Some(text) => if parsed_uri(text) is Some {
                Some(text)
            } else {
                None
            },
            None => None,
        }
    }
}

/// The text of a hover that may be absent.
pub open spec fn opt_hover(reply: Option<HoverReply>) -> Option<Seq<char>> {
    match reply {
        Some(hover) => Some(hover.contents@),
        None => None,
    }
}

/// The values of a list of annotations that may be absent.
pub open spec fn opt_hints(hints: Option<Vec<OwnerHint>>) -> Option<Seq<HintView>> {
    match hints {
        Some(list) => Some(Seq::new(list@.len(), |i: int| list@[i]@)),
        None => None,
    }
}

impl SessionView {
    /// What a hover over the file shows.
    pub open spec fn hover(self, uri: Seq<char>) -> Option<Seq<char>> {
        hover_of(self.owners(uri))
    }

    /// The annotations of the file.
    pub open spec fn inlay_hint(self, uri: Seq<char>) -> Option<Seq<HintView>> {
        hints_of(self.owners(uri))
    }

    /// What a command does. Any command but the one that is served, and any
    /// arguments that name no file, do nothing.
    pub open spec fn execute_command(
        self,
        command: Seq<char>,
        arguments: Seq<Value>,
    ) -> CommandView {
        if command != show_owner_command() {
            CommandView::Ignored
        } else {
            match command_target(arguments) {
                Some(uri) => notice_of(self.owners(uri)),
                None => CommandView::Ignored,
            }
        }
    }
}

/// The hover for a line of owners.
pub fn hover_for(owners: Option<String>) -> (reply: Option<HoverReply>)
    ensures
        opt_hover(reply) == hover_of(opt_text(owners)),
{
    match owners {
        Some(line) => Some(HoverReply { contents: prefixed("**CODEOWNERS:** ", line.as_str()) }),
        None => None,
    }
}

/// The annotations for a line of owners.
pub fn hints_for(owners: Option<String>) -> (hints: Option<Vec<OwnerHint>>)
    ensures
        opt_hints(hints) == hints_of(opt_text(owners)),
{
    match owners {
        Some(line) => {
            let hint = OwnerHint {
                position: Position { line: 0, character: 0 },
                label: prefixed("Owned by: ", line.as_str()),
                tooltip: String::from_str("File ownership from CODEOWNERS"),
                padding_left: false,
                padding_right: true,
            };
            let mut list: Vec<OwnerHint> = Vec::new();
            list.push(hint);
            proof {
                assert(opt_hints(Some(list)).unwrap() =~= seq![hint_of(line@)]);
            }
            Some(list)
        },
        None => None,
    }
}

/// What the command shows for a line of owners, or for none.
pub fn notice_for(owners: Option<String>) -> (reply: CommandReply)
    ensures
        reply@ == notice_of(opt_text(owners)),
{
    match owners {
        Some(line) => CommandReply::Owners(prefixed("Owners: ", line.as_str())),
        None => CommandReply::NoRule(String::from_str("No CODEOWNERS rule matches this file")),
    }
}

/// The file that a command is about.
pub fn target_of(arguments: &Vec<Value>) -> (target: Option<String>)
    ensures
        opt_text(target) == command_target(arguments@),
{
    if arguments.len() == 0 {
        None
    } else {
        match as_string(&arguments[0]) {
            Some(text) => match parse_uri(text.as_str()) {
                Some(_) => Some(text),
                None => None,
            },
            None => None,
        }
    }
}

impl SessionState {
    /// Hover at `position` in the file that `uri` names. The position is taken
    /// and plays no part: ownership is a matter of the file.
    pub fn hover(&self, uri: &str, position: Position) -> (reply: Option<HoverReply>)
        ensures
            opt_hover(reply) == self@.hover(uri@),
    {
        hover_for(self.get_owners_for_file(uri))
    }

    /// The inline annotations for `range` of the file that `uri` names. The
    /// range is taken and plays no part: there is one marker for the whole
    /// file, or none.
    pub fn inlay_hint(&self, uri: &str, range: Range) -> (hints: Option<Vec<OwnerHint>>)
        ensures
            opt_hints(hints) == self@.inlay_hint(uri@),
    {
        hints_for(self.get_owners_for_file(uri))
    }

    /// Runs a command. It never fails: what it does not understand it ignores.
    pub fn execute_command(&self, command: &str, arguments: &Vec<Value>) -> (reply: CommandReply)
        ensures
            reply@ == self@.execute_command(command@, arguments@),
    {
        if !same_text(command, "showOwner") {
            CommandReply::Ignored
        } else {
            match target_of(arguments) {
                Some(uri) => notice_for(self.get_owners_for_file(uri.as_str())),
                None => CommandReply::Ignored,
            }
        }
    }
}

/// Whether two texts are the same.
fn same_text(left: &str, right: &str) -> (same: bool)
    ensures
        same == (left@ == right@),
{
    String::from_str(left) == String::from_str(right)
}

/// What the server offers: hover, inline annotations and the one command; of
/// the documents' text it wants nothing.
pub fn capabilities() -> (offer: Capabilities)
    ensures
        offer.hover_provider,
        offer.inlay_hint_provider,
        offer.text_document_sync == TextDocumentSync::Off,
        offer.commands@.len() == 1,
        offer.commands@[0]@ == show_owner_command(),
{
    let mut commands: Vec<String> = Vec::new();
    commands.push(String::from_str("showOwner"));
    Capabilities {
        hover_provider: true,
        inlay_hint_provider: true,
        commands,
        text_document_sync: TextDocumentSync::Off,
    }
}

/// The result of the handshake for a server of the given version.
pub fn initialize_reply(version: &str) -> (reply: InitializeReply)
    ensures
        reply.capabilities.hover_provider,
        reply.capabilities.inlay_hint_provider,
        reply.capabilities.text_document_sync == TextDocumentSync::Off,
        reply.capabilities.commands@.len() == 1,
        reply.capabilities.commands@[0]@ == show_owner_command(),
        reply.name@ == server_name(),
        reply.version@ == version@,
{
    InitializeReply {
        capabilities: capabilities(),
        name: String::from_str("codeowners-lsp"),
        version: String::from_str(version),
    }
}

} // verus!
