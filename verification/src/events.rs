use vstd::prelude::*;
use vstd::utf8::encode_utf8;
use vstd::utf8::decode_utf8;
use vstd::utf8::valid_utf8;
use vstd::slice::slice_to_vec;

verus! {

/// What the chat node's loop hands over: a terminal line or a network event,
/// each with its parts already rendered as text.
pub enum ChatEvent {
    /// A line typed on the terminal (without its line ending).
    InputLine(String),
    /// A gossip message, with the peer that relayed it and its raw data.
    GossipMessage { source: String, data: Vec<u8> },
    /// The router mapped a port and the node is reachable on this address.
    UpnpExternalAddr(String),
    /// The NAT status changed from `old` to `new`.
    NatStatusChanged { old: String, new: String },
    /// A relayed connection to `peer` was upgraded to a direct one.
    DirectConnectionUpgraded { peer: String },
    /// The node listens on a new address.
    NewListenAddr(String),
    /// Any other event.
    Other,
}

/// What the loop does with an event.
#[derive(Debug, PartialEq, Eq)]
pub enum ChatAction {
    /// Publish these bytes on the chat topic.
    Publish(Vec<u8>),
    /// Show this line on the terminal.
    Show(String),
    /// Do nothing.
    Ignore,
}

/// The text that `String::from_utf8_lossy` makes of bytes that are not valid UTF-8.
pub uninterp spec fn utf8_lossy_text(data: Seq<u8>) -> Seq<char>;

/// The text that `String::from_utf8_lossy` makes of the bytes: the decoded text when
/// they are valid UTF-8.
pub open spec fn lossy_text(data: Seq<u8>) -> Seq<char> {
    if valid_utf8(data) {
        decode_utf8(data)
    } else {
        utf8_lossy_text(data)
    }
}

/// Calls `String::from_utf8_lossy`. Trusted: on valid UTF-8 the text is the decoded
/// text, as the documentation states; on other bytes it is named by `utf8_lossy_text`
/// (the replacement of invalid sequences is not stated).
#[verifier::external_body]
fn utf8_lossy(data: &[u8]) -> (s: String)
    ensures
        valid_utf8(data@) ==> s@ == decode_utf8(data@),
        !valid_utf8(data@) ==> s@ == utf8_lossy_text(data@),
{
    String::from_utf8_lossy(data).into_owned()
}

/// The line shown for a gossip message relayed by `source`.
pub open spec fn message_line(source: Seq<char>, data: Seq<u8>) -> Seq<char> {
    "["@ + source + "] "@ + lossy_text(data)
}

/// A chat action as mathematical values.
pub enum ChatActionView {
    Publish(Seq<u8>),
    Show(Seq<char>),
    Ignore,
}

impl View for ChatAction {
    type V = ChatActionView;

    open spec fn view(&self) -> ChatActionView {
        match self {
            ChatAction::Publish(bytes) => ChatActionView::Publish(bytes@),
            ChatAction::Show(line) => ChatActionView::Show(line@),
            ChatAction::Ignore => ChatActionView::Ignore,
        }
    }
}

/// The action that the chat loop takes on an event: a terminal line is published as
/// its UTF-8 bytes; gossip messages, UPnP addresses, AutoNAT status changes, direct
/// connection upgrades and new listen addresses are shown; any other event is ignored.
pub open spec fn chat_reaction(e: ChatEvent) -> ChatActionView {
    match e {
        ChatEvent::InputLine(line) => ChatActionView::Publish(encode_utf8(line@)),
        ChatEvent::GossipMessage { source, data } => ChatActionView::Show(message_line(source@, data@)),
        ChatEvent::UpnpExternalAddr(addr) => ChatActionView::Show("🌐 UPnP external addr: "@ + addr@),
        ChatEvent::NatStatusChanged { old, new } => ChatActionView::Show("🔍 AutoNAT: "@ + old@ + " → "@ + new@),
        ChatEvent::DirectConnectionUpgraded { peer } => ChatActionView::Show(
            "🚀 DCUtR direct connection with "@ + peer@ + " established"@,
        ),
        ChatEvent::NewListenAddr(addr) => ChatActionView::Show("▶ Listen: "@ + addr@),
        ChatEvent::Other => ChatActionView::Ignore,
    }
}

/// Decides what the chat loop does with an event.
pub fn handle_chat_event(event: ChatEvent) -> (action: ChatAction)
    ensures
        action@ == chat_reaction(event),
{
    match event {
        ChatEvent::InputLine(line) => ChatAction::Publish(slice_to_vec(line.as_str().as_bytes())),
        ChatEvent::GossipMessage { source, data } => {
            let mut shown = String::from_str("[");
            shown.append(source.as_str());
            shown.append("] ");
            let text = utf8_lossy(data.as_slice());
            shown.append(text.as_str());
            ChatAction::Show(shown)
        },
        ChatEvent::UpnpExternalAddr(addr) => {
            let mut shown = String::from_str("🌐 UPnP external addr: ");
            shown.append(addr.as_str());
            ChatAction::Show(shown)
        },
        ChatEvent::NatStatusChanged { old, new } => {
            let mut shown = String::from_str("🔍 AutoNAT: ");
            shown.append(old.as_str());
            shown.append(" → ");
            shown.append(new.as_str());
            ChatAction::Show(shown)
        },
        ChatEvent::DirectConnectionUpgraded { peer } => {
            let mut shown = String::from_str("🚀 DCUtR direct connection with ");
            shown.append(peer.as_str());
            shown.append(" established");
            ChatAction::Show(shown)
        },
        ChatEvent::NewListenAddr(addr) => {
            let mut shown = String::from_str("▶ Listen: ");
            shown.append(addr.as_str());
            ChatAction::Show(shown)
        },
        ChatEvent::Other => ChatAction::Ignore,
    }
}

/// A line typed on one node is published as its UTF-8 bytes, and a node that receives
/// those bytes shows exactly that line after the name of the peer that relayed it.
pub proof fn law_published_line_shown_verbatim(line: String, source: Seq<char>)
    ensures
        chat_reaction(ChatEvent::InputLine(line)) == ChatActionView::Publish(encode_utf8(line@)),
        message_line(source, encode_utf8(line@)) == "["@ + source + "] "@ + line@,
{
    vstd::utf8::encode_utf8_valid_utf8(line@);
    vstd::utf8::encode_utf8_decode_utf8(line@);
}

/// A received gossip message is shown whole, after the relaying peer's name: the line is
/// `[`, the source, `] `, then the text of all the data (its decoding when it is valid
/// UTF-8), so that the line's tail after the source is exactly that text.
pub proof fn law_gossip_message_shown_whole(source: String, data: Vec<u8>)
    ensures
        chat_reaction(ChatEvent::GossipMessage { source, data }) == ChatActionView::Show(
            "["@ + source@ + "] "@ + (if valid_utf8(data@) {
                decode_utf8(data@)
            } else {
                utf8_lossy_text(data@)
            }),
        ),
        valid_utf8(data@) ==> (chat_reaction(ChatEvent::GossipMessage { source, data }) matches ChatActionView::Show(shown)
            && shown.subrange(shown.len() - decode_utf8(data@).len(), shown.len() as int) == decode_utf8(data@)),
{
    let line = "["@ + source@ + "] "@ + lossy_text(data@);
    assert(line.subrange(line.len() - lossy_text(data@).len(), line.len() as int) =~= lossy_text(data@));
}

/// Every network notice is shown, whatever its text: the UPnP address, both AutoNAT
/// states, the peer of a direct-connection upgrade and each new listen address appear in
/// full between the notice's fixed words.
pub proof fn law_notices_always_shown(a: String, b: String)
    ensures
        chat_reaction(ChatEvent::UpnpExternalAddr(a)) == ChatActionView::Show("🌐 UPnP external addr: "@ + a@),
        chat_reaction(ChatEvent::NatStatusChanged { old: a, new: b }) == ChatActionView::Show(
            "🔍 AutoNAT: "@ + a@ + " → "@ + b@,
        ),
        chat_reaction(ChatEvent::DirectConnectionUpgraded { peer: a }) == ChatActionView::Show(
            "🚀 DCUtR direct connection with "@ + a@ + " established"@,
        ),
        chat_reaction(ChatEvent::NewListenAddr(a)) == ChatActionView::Show("▶ Listen: "@ + a@),
        chat_reaction(ChatEvent::Other) == ChatActionView::Ignore,
{
}

/// What the seed node's loop hands over.
pub enum SeedEvent {
    /// The node listens on a new address.
    NewListenAddr(String),
    /// Any other event.
    Other,
}

/// The line that the seed node shows for an event, if any.
pub open spec fn seed_line(e: SeedEvent) -> Option<Seq<char>> {
    match e {
        SeedEvent::NewListenAddr(addr) => Some("▶ Listen on "@ + addr@),
        SeedEvent::Other => None,
    }
}

/// Decides what the seed node shows for an event: only new listen addresses are shown.
pub fn seed_event_line(event: SeedEvent) -> (line: Option<String>)
    ensures
        match (line, seed_line(event)) {
            (Some(l), Some(expected)) => l@ == expected,
            (None, None) => true,
            _ => false,
        },
{
    match event {
        SeedEvent::NewListenAddr(addr) => {
            let mut shown = String::from_str("▶ Listen on ");
            shown.append(addr.as_str());
            Some(shown)
        },
        SeedEvent::Other => None,
    }
}

/// The seed node shows every address it listens on, whatever its length: the line is the
/// fixed words followed by the whole address; no other event is shown.
pub proof fn law_seed_shows_every_listen_address(addr: String)
    ensures
        seed_line(SeedEvent::NewListenAddr(addr)) == Some("▶ Listen on "@ + addr@),
        seed_line(SeedEvent::NewListenAddr(addr)) matches Some(shown) && shown.len() == "▶ Listen on "@.len() + addr@.len()
            && shown.subrange("▶ Listen on "@.len() as int, shown.len() as int) == addr@,
        seed_line(SeedEvent::Other) is None,
{
    let line = "▶ Listen on "@ + addr@;
    assert(line.subrange("▶ Listen on "@.len() as int, line.len() as int) =~= addr@);
}

} // verus!
