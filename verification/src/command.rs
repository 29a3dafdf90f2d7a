//! The commands a client sends to its node, and what the node does with each.
use vstd::prelude::*;

use crate::network::Node;
use crate::outside::{base58_decoded, is_base58_text, is_peer_id_bytes, peer_id_text};
use crate::peer::{is_peer_text, PeerKey};
use crate::string_set::StringSet;

verus! {

/// A request from a client to the node that runs the swarm. The channels on which the node
/// answers travel beside the command; they are not part of it.
pub enum Command {
    /// Subscribe the node to the topic with this name.
    SubscribeTopic { topic: String },
    /// Unsubscribe the node from the topic with this name.
    UnSubscribeTopic { topic: String },
    /// Publish `message` on the topic whose hash is `topic`.
    SendToOne { topic: String, message: String },
    /// Answer with the peers that gossipsub knows.
    GetConnectedPeers,
    /// Answer with the peers that mDNS has discovered.
    GetDiscoveredPeers,
    /// Answer with the addresses the swarm listens on.
    ListeningAddress,
    /// Make this peer an explicit gossipsub peer.
    ConnectPeer { peer_id: PeerKey },
}

/// A command, with each text by its characters and each peer by its bytes.
pub enum CommandView {
    SubscribeTopic { topic: Seq<char> },
    UnSubscribeTopic { topic: Seq<char> },
    SendToOne { topic: Seq<char>, message: Seq<char> },
    GetConnectedPeers,
    GetDiscoveredPeers,
    ListeningAddress,
    ConnectPeer { peer_id: Seq<u8> },
}

impl View for Command {
    type V = CommandView;

    open spec fn view(&self) -> CommandView {
        match self {
            Command::SubscribeTopic { topic } => CommandView::SubscribeTopic { topic: topic@ },
            Command::UnSubscribeTopic { topic } => CommandView::UnSubscribeTopic { topic: topic@ },
            Command::SendToOne { topic, message } => CommandView::SendToOne {
                topic: topic@,
                message: message@,
            },
            Command::GetConnectedPeers => CommandView::GetConnectedPeers,
            Command::GetDiscoveredPeers => CommandView::GetDiscoveredPeers,
            Command::ListeningAddress => CommandView::ListeningAddress,
            Command::ConnectPeer { peer_id } => CommandView::ConnectPeer { peer_id: peer_id@ },
        }
    }
}

/// What the node does to its swarm for a command.
pub enum SwarmAction {
    /// Subscribe gossipsub to the topic with this name.
    Subscribe { topic: String },
    /// Unsubscribe gossipsub from the topic with this name.
    Unsubscribe { topic: String },
    /// Answer with the set of the texts of the peers gossipsub knows.
    ReplyConnectedPeers,
    /// Answer with the set of the texts of the peers mDNS has discovered.
    ReplyDiscoveredPeers,
    /// Answer with the set of the texts of the addresses the swarm listens on.
    ReplyListeningAddresses,
    /// Publish the bytes of `message` on the topic whose hash is `topic`.
    Publish { topic: String, message: String },
    /// Add this peer to the explicit peers of gossipsub.
    AddExplicitPeer { peer_id: PeerKey },
}

/// A swarm action, with each text by its characters and each peer by its bytes.
pub enum SwarmActionView {
    Subscribe { topic: Seq<char> },
    Unsubscribe { topic: Seq<char> },
    ReplyConnectedPeers,
    ReplyDiscoveredPeers,
    ReplyListeningAddresses,
    Publish { topic: Seq<char>, message: Seq<char> },
    AddExplicitPeer { peer_id: Seq<u8> },
}

impl View for SwarmAction {
    type V = SwarmActionView;

    open spec fn view(&self) -> SwarmActionView {
        match self {
            SwarmAction::Subscribe { topic } => SwarmActionView::Subscribe { topic: topic@ },
            SwarmAction::Unsubscribe { topic } => SwarmActionView::Unsubscribe { topic: topic@ },
            SwarmAction::ReplyConnectedPeers => SwarmActionView::ReplyConnectedPeers,
            SwarmAction::ReplyDiscoveredPeers => SwarmActionView::ReplyDiscoveredPeers,
            SwarmAction::ReplyListeningAddresses => SwarmActionView::ReplyListeningAddresses,
            SwarmAction::Publish { topic, message } => SwarmActionView::Publish {
                topic: topic@,
                message: message@,
            },
            SwarmAction::AddExplicitPeer { peer_id } => SwarmActionView::AddExplicitPeer {
                peer_id: peer_id@,
            },
        }
    }
}

/// How the node answers a command on the channel that came with it, once its swarm action
/// is done.
#[derive(PartialEq, Eq, Structural)]
pub enum Answer {
    /// The swarm call succeeded: answer `Ok(())`.
    Done,
    /// Answer with the set of texts the action gathered.
    TextSet,
    /// The command comes with no channel; nothing is answered.
    Nothing,
}

/// What the node decides for a command: the action on its swarm, how it answers, and the
/// lines it prints.
pub struct CommandOutcome {
    pub action: SwarmAction,
    pub answer: Answer,
    pub log: Vec<String>,
}

/// The action the node takes for a command.
pub open spec fn command_action(c: CommandView) -> SwarmActionView {
    match c {
        CommandView::SubscribeTopic { topic } => SwarmActionView::Subscribe { topic },
        CommandView::UnSubscribeTopic { topic } => SwarmActionView::Unsubscribe { topic },
        CommandView::SendToOne { topic, message } => SwarmActionView::Publish { topic, message },
        CommandView::GetConnectedPeers => SwarmActionView::ReplyConnectedPeers,
        CommandView::GetDiscoveredPeers => SwarmActionView::ReplyDiscoveredPeers,
        CommandView::ListeningAddress => SwarmActionView::ReplyListeningAddresses,
        CommandView::ConnectPeer { peer_id } => SwarmActionView::AddExplicitPeer { peer_id },
    }
}

/// The lines the node prints for a command: the message it is about to publish.
pub open spec fn command_log(c: CommandView) -> Seq<Seq<char>> {
    match c {
        CommandView::SendToOne { message, .. } => seq!["Message : "@ + message],
        _ => seq![],
    }
}

/// How the node answers a command: subscribing and unsubscribing with `Ok(())` once the
/// swarm call succeeded, the three queries with a set of texts, the others not at all.
pub open spec fn command_answer(c: CommandView) -> Answer {
    match c {
        CommandView::SubscribeTopic { .. } => Answer::Done,
        CommandView::UnSubscribeTopic { .. } => Answer::Done,
        CommandView::GetConnectedPeers => Answer::TextSet,
        CommandView::GetDiscoveredPeers => Answer::TextSet,
        CommandView::ListeningAddress => Answer::TextSet,
        CommandView::SendToOne { .. } => Answer::Nothing,
        CommandView::ConnectPeer { .. } => Answer::Nothing,
    }
}

/// Whether the node answers a command on the channel that came with it.
pub open spec fn command_is_answered(c: CommandView) -> bool {
    command_answer(c) != Answer::Nothing
}

/// Decides what the node does for `command`. The node's own record is left as it was.
pub fn handle_command(node: &mut Node, command: Command) -> (out: CommandOutcome)
    ensures
        *final(node) == *old(node),
        out.action@ == command_action(command@),
        out.log.deep_view() == command_log(command@),
        out.answer == command_answer(command@),
{
    let mut log: Vec<String> = Vec::new();
    let answer = match &command {
        Command::SubscribeTopic { .. } => Answer::Done,
        Command::UnSubscribeTopic { .. } => Answer::Done,
        Command::GetConnectedPeers => Answer::TextSet,
        Command::GetDiscoveredPeers => Answer::TextSet,
        Command::ListeningAddress => Answer::TextSet,
        Command::SendToOne { .. } => Answer::Nothing,
        Command::ConnectPeer { .. } => Answer::Nothing,
    };
    let action = match command {
        Command::SubscribeTopic { topic } => SwarmAction::Subscribe { topic },
        Command::UnSubscribeTopic { topic } => SwarmAction::Unsubscribe { topic },
        Command::GetConnectedPeers => SwarmAction::ReplyConnectedPeers,
        Command::GetDiscoveredPeers => SwarmAction::ReplyDiscoveredPeers,
        Command::ListeningAddress => SwarmAction::ReplyListeningAddresses,
        Command::SendToOne { topic, message } => {
            let mut line = "Message : ".to_owned();
            line.append(message.as_str());
            log.push(line);
            SwarmAction::Publish { topic, message }
        },
        Command::ConnectPeer { peer_id } => SwarmAction::AddExplicitPeer { peer_id },
    };
    proof {
        assert(log.deep_view() =~= command_log(command@));
    }
    CommandOutcome { action, answer, log }
}

/// The line the node prints when publishing fails, given the error as `{:?}` shows it.
pub fn publish_error_log(error: &str) -> (line: String)
    ensures
        line@ == "Publish error: "@ + error@,
{
    let mut line = "Publish error: ".to_owned();
    line.append(error);
    line
}

/// The texts of the given peers.
pub open spec fn peer_texts(peers: Seq<PeerKey>) -> Seq<Seq<char>> {
    peers.map_values(|k: PeerKey| peer_id_text(k@))
}

/// The answer to a request for peers: the set of the texts of `peers`, each once. Each text
/// is Base58 that decodes to the bytes of one of the peers, so that `peer_id_from_str`
/// accepts every text of the answer and gives back the peer it came from.
pub fn peer_set_reply(peers: &Vec<PeerKey>) -> (r: StringSet)
    ensures
        r@ == peer_texts(peers@).to_set(),
        forall|i: int| 0 <= i < peers.len() ==> r@.contains(#[trigger] peer_id_text(peers@[i]@)),
        forall|t: Seq<char>| #[trigger]
            r@.contains(t) ==> exists|i: int|
                0 <= i < peers.len() && t == peer_id_text(#[trigger] peers@[i]@),
        forall|t: Seq<char>| #[trigger]
            r@.contains(t) ==> is_peer_text(t) && exists|i: int|
                0 <= i < peers.len() && base58_decoded(t) == Some(#[trigger] peers@[i]@),
{
    let mut r = StringSet::new();
    let n = peers.len();
    let mut i: usize = 0;
    while i < n
        invariant
            n == peers.len(),
            i <= n,
            r@ == peer_texts(peers@.take(i as int)).to_set(),
            forall|t: Seq<char>| #[trigger]
                r@.contains(t) ==> is_peer_text(t) && exists|j: int|
                    0 <= j < i && base58_decoded(t) == Some(#[trigger] peers@[j]@),
        decreases n - i,
    {
        let text = peers[i].to_string();
        let ghost t = text@;
        let ghost before = r@;
        r.insert(text);
        proof {
            assert(peer_texts(peers@.take(i + 1)) =~= peer_texts(peers@.take(i as int)).push(t));
            peer_texts(peers@.take(i as int)).lemma_push_to_set_commute(t);
            assert forall|u: Seq<char>| #[trigger]
                r@.contains(u) implies is_peer_text(u) && exists|j: int|
                    0 <= j < i + 1 && base58_decoded(u) == Some(#[trigger] peers@[j]@) by {
                if u == t {
                    assert(base58_decoded(u) == Some(peers@[i as int]@));
                } else {
                    assert(before.contains(u));
                }
            }
        }
        i = i + 1;
    }
    proof {
        assert(peers@.take(n as int) =~= peers@);
        crate::laws::law_peer_reply_complete(peers@);
    }
    r
}

} // verus!
