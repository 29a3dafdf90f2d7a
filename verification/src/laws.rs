//! Properties of the node that span its functions.
use vstd::prelude::*;

use crate::command::{
    command_action, command_answer, command_is_answered, command_log, Answer, CommandView,
    SwarmActionView,
};
use crate::command::peer_texts;
use crate::event::{event_handled, event_log, event_peer_ops, NodeEvent, PeerOpView};
use crate::network::{config_plan, Client};
use crate::outside::peer_id_text;
use crate::peer::PeerKey;
use crate::text::{
    decimal_text, digit_text, listen_plan, resolved_address, resolved_port, tcp_listen_text,
    udp_listen_text,
};

verus! {

/// A node always listens somewhere: on QUIC exactly when asked for it, on TCP exactly when
/// asked for it or when QUIC is not asked for, each at most once, TCP before QUIC.
pub proof fn law_listen_plan(addr: Seq<char>, port: nat, tcp: bool, udp: bool)
    ensures
        listen_plan(addr, port, tcp, udp).len() >= 1,
        listen_plan(addr, port, tcp, udp).contains(udp_listen_text(addr, port)) <==> udp,
        listen_plan(addr, port, tcp, udp).contains(tcp_listen_text(addr, port)) <==> (tcp || !udp),
        listen_plan(addr, port, tcp, udp).no_duplicates(),
        (tcp || !udp) ==> listen_plan(addr, port, tcp, udp)[0] == tcp_listen_text(addr, port),
{
    reveal_strlit("/tcp/");
    reveal_strlit("/udp/");
    reveal_strlit("/ip4/");
    let t = tcp_listen_text(addr, port);
    let u = udp_listen_text(addr, port);
    let k: int = addr.len() as int + 6;
    assert(t[k] == 't');
    assert(u[k] == 'u');
    assert(t != u);
    let plan = listen_plan(addr, port, tcp, udp);
    if tcp && udp {
        assert(plan[1] == u);
        assert(plan[0] == t);
    } else if udp {
        assert(plan[0] == u);
        assert(!plan.contains(t)) by {
            if plan.contains(t) {
                assert(plan[0] == t);
            }
        }
    } else {
        assert(plan[0] == t);
        assert(!plan.contains(u)) by {
            if plan.contains(u) {
                assert(plan[0] == u);
            }
        }
    }
}

/// A client set up for the topic `msg_topic` can send on that topic alone; subscribing the
/// node to other topics does not change that, since the client's topics never change.
pub proof fn law_client_sends_only_on_its_topic(c: Client, msg_topic: Seq<char>, topic: Seq<char>)
    requires
        c.topic_map() == Map::<Seq<char>, Seq<char>>::empty().insert(msg_topic, msg_topic),
    ensures
        c.topic_map().dom().contains(topic) <==> topic == msg_topic,
        topic == msg_topic ==> c.topic_map()[topic] == msg_topic,
{
}

/// A message that a client sends on a topic it knows is published by the node, unchanged,
/// under that topic's hash, and printed first; no answer is sent back for it.
pub proof fn law_sent_message_is_published(c: Client, topic: Seq<char>, message: Seq<char>)
    requires
        c.topic_map().dom().contains(topic),
    ensures
        ({
            let cmd = CommandView::SendToOne { topic: c.topic_map()[topic], message };
            &&& command_action(cmd) == (SwarmActionView::Publish {
                topic: c.topic_map()[topic],
                message,
            })
            &&& command_log(cmd) == seq!["Message : "@ + message]
            &&& !command_is_answered(cmd)
        }),
{
}

/// Subscribing and unsubscribing are carried out on the swarm and answered `Ok(())` once the
/// swarm call succeeded.
pub proof fn law_subscriptions_answered(topic: Seq<char>)
    ensures
        command_action(CommandView::SubscribeTopic { topic }) == (SwarmActionView::Subscribe {
            topic,
        }),
        command_action(CommandView::UnSubscribeTopic { topic }) == (SwarmActionView::Unsubscribe {
            topic,
        }),
        command_answer(CommandView::SubscribeTopic { topic }) == Answer::Done,
        command_answer(CommandView::UnSubscribeTopic { topic }) == Answer::Done,
        command_is_answered(CommandView::SubscribeTopic { topic }),
        command_is_answered(CommandView::UnSubscribeTopic { topic }),
{
}

/// On an mDNS event the node prints one line per listed peer and changes the explicit peers
/// once per listed peer, in the same order; no other event changes the explicit peers.
pub proof fn law_mdns_changes_follow_lines(e: NodeEvent)
    ensures
        (e is MdnsDiscovered || e is MdnsExpired) ==> event_log(&e).len() == event_peer_ops(
            &e,
        ).len(),
        !(e is MdnsDiscovered || e is MdnsExpired) ==> event_peer_ops(&e).len() == 0,
{
}

/// Any event the node handles other than an mDNS one leaves the explicit peers alone and only
/// prints: one line, or one line and then each address of a closed listener, or nothing for
/// the events it ignores.
pub proof fn law_other_events_only_print(e: NodeEvent)
    requires
        event_handled(&e),
        !(e is MdnsDiscovered || e is MdnsExpired),
    ensures
        event_peer_ops(&e).len() == 0,
        e is Other ==> event_log(&e).len() == 0,
        e is ListenerClosed ==> event_log(&e).len() == 1 + e->addresses@.len(),
        !(e is Other || e is ListenerClosed) ==> event_log(&e).len() == 1,
{
}

/// Whether `c` is one of the ten decimal digit characters.
pub open spec fn is_decimal_digit(c: char) -> bool {
    '0' <= c <= '9'
}

/// The number that a string of decimal digit characters denotes, most significant first.
pub open spec fn numeral_value(s: Seq<char>) -> int
    decreases s.len(),
{
    if s.len() == 0 {
        0
    } else {
        numeral_value(s.drop_last()) * 10 + (s.last() as int - '0' as int)
    }
}

/// The text of a digit is the one character whose code is that of `0` plus the digit.
pub proof fn law_digit_text(d: nat)
    requires
        d < 10,
    ensures
        digit_text(d).len() == 1,
        digit_text(d)[0] as int == '0' as int + d,
{
    reveal_strlit("0");
    reveal_strlit("1");
    reveal_strlit("2");
    reveal_strlit("3");
    reveal_strlit("4");
    reveal_strlit("5");
    reveal_strlit("6");
    reveal_strlit("7");
    reveal_strlit("8");
    reveal_strlit("9");
}

/// The decimal text of `n` is the standard numeral of `n`: it is made of decimal digits
/// only, read in base ten it gives back `n`, and it has no leading zero (`0` is written `0`).
pub proof fn law_decimal_text(n: nat)
    ensures
        decimal_text(n).len() >= 1,
        forall|i: int| 0 <= i < decimal_text(n).len() ==> is_decimal_digit(#[trigger] decimal_text(n)[i]),
        numeral_value(decimal_text(n)) == n,
        decimal_text(n)[0] == '0' <==> n == 0,
    decreases n,
{
    if n < 10 {
        law_digit_text(n);
        let s = decimal_text(n);
        assert(s.drop_last().len() == 0);
        assert(numeral_value(s.drop_last()) == 0);
        assert(numeral_value(s) == numeral_value(s.drop_last()) * 10 + (s.last() as int - '0' as int));
    } else {
        let q = n / 10;
        let r = n % 10;
        law_decimal_text(q);
        law_digit_text(r);
        let a = decimal_text(q);
        let b = digit_text(r);
        let s = decimal_text(n);
        assert(s == a + b);
        assert(s.drop_last() =~= a);
        assert(s.last() == b[0]);
        assert(n == q * 10 + r);
        assert(numeral_value(s) == numeral_value(s.drop_last()) * 10 + (s.last() as int - '0' as int));
        assert(numeral_value(a) == q);
        assert(s[0] == a[0]);
        assert forall|i: int| 0 <= i < s.len() implies is_decimal_digit(#[trigger] s[i]) by {
            if i < a.len() {
                assert(s[i] == a[i]);
            } else {
                assert(s[i] == b[i - a.len()]);
            }
        }
    }
}

/// On an mDNS event every listed peer gets its own change, in its own position: each
/// discovered peer is added and each expired peer removed as an explicit peer, and the
/// line printed in the same position names that peer.
pub proof fn law_mdns_changes_each_listed_peer(e: NodeEvent)
    ensures
        e is MdnsDiscovered ==> {
            let peers = e->MdnsDiscovered_peers;
            &&& event_peer_ops(&e).len() == peers@.len()
            &&& event_log(&e).len() == peers@.len()
            &&& forall|i: int|
                0 <= i < peers@.len() ==> #[trigger] event_peer_ops(&e)[i]
                    == PeerOpView::AddExplicit(peers@[i]@) && event_log(&e)[i]
                    == "mDNS discover peer has discovered: "@ + peer_id_text(peers@[i]@)
        },
        e is MdnsExpired ==> {
            let peers = e->MdnsExpired_peers;
            &&& event_peer_ops(&e).len() == peers@.len()
            &&& event_log(&e).len() == peers@.len()
            &&& forall|i: int|
                0 <= i < peers@.len() ==> #[trigger] event_peer_ops(&e)[i]
                    == PeerOpView::RemoveExplicit(peers@[i]@) && event_log(&e)[i]
                    == "mDNS discover peer has expired: "@ + peer_id_text(peers@[i]@)
        },
{
}

/// A reply to a peer query holds the text of every given peer, and nothing else.
pub proof fn law_peer_reply_complete(peers: Seq<PeerKey>)
    ensures
        peer_texts(peers).len() == peers.len(),
        forall|i: int|
            0 <= i < peers.len() ==> #[trigger] peer_texts(peers)[i] == peer_id_text(peers[i]@),
        forall|i: int|
            0 <= i < peers.len() ==> peer_texts(peers).to_set().contains(
                #[trigger] peer_id_text(peers[i]@),
            ),
        forall|t: Seq<char>| #[trigger]
            peer_texts(peers).to_set().contains(t) ==> exists|i: int|
                0 <= i < peers.len() && t == peer_id_text(#[trigger] peers[i]@),
{
    assert forall|i: int| 0 <= i < peers.len() implies peer_texts(peers).to_set().contains(
        #[trigger] peer_id_text(peers[i]@),
    ) by {
        assert(peer_texts(peers)[i] == peer_id_text(peers[i]@));
    }
    assert forall|t: Seq<char>| #[trigger] peer_texts(peers).to_set().contains(t) implies exists|
        i: int,
    | 0 <= i < peers.len() && t == peer_id_text(#[trigger] peers[i]@) by {
        let i = choose|i: int| 0 <= i < peer_texts(peers).len() && peer_texts(peers)[i] == t;
        assert(t == peer_id_text(peers[i]@));
    }
}

/// The three queries are each answered with a set of texts; a message to publish and a peer
/// to connect are not answered; subscribing and unsubscribing are answered `Ok(())`.
pub proof fn law_answers(topic: Seq<char>, message: Seq<char>, peer: Seq<u8>)
    ensures
        command_answer(CommandView::GetConnectedPeers) == Answer::TextSet,
        command_answer(CommandView::GetDiscoveredPeers) == Answer::TextSet,
        command_answer(CommandView::ListeningAddress) == Answer::TextSet,
        command_answer(CommandView::SendToOne { topic, message }) == Answer::Nothing,
        command_answer(CommandView::ConnectPeer { peer_id: peer }) == Answer::Nothing,
        command_answer(CommandView::SubscribeTopic { topic }) == Answer::Done,
        command_answer(CommandView::UnSubscribeTopic { topic }) == Answer::Done,
{
}

/// A node set up from a configuration listens on QUIC exactly when QUIC is asked for, and on
/// TCP exactly when TCP is asked for or QUIC is not; always somewhere, each at most once, on
/// the given address (every interface when none) and port (0 when none).
pub proof fn law_config_plan(address: Option<&str>, port: Option<u32>, tcp: bool, udp: bool)
    ensures
        ({
            let a = resolved_address(address);
            let p = resolved_port(port);
            let plan = config_plan(address, port, tcp, udp);
            &&& plan.len() >= 1
            &&& plan.contains(udp_listen_text(a, p)) <==> udp
            &&& plan.contains(tcp_listen_text(a, p)) <==> (tcp || !udp)
            &&& plan.no_duplicates()
            &&& forall|i: int| 0 <= i < plan.len() ==> #[trigger] plan[i] == udp_listen_text(a, p)
                || plan[i] == tcp_listen_text(a, p)
        }),
        address is None ==> resolved_address(address) == "0.0.0.0"@,
        address matches Some(s) ==> resolved_address(address) == s@,
        port is None ==> resolved_port(port) == 0,
        port matches Some(n) ==> resolved_port(port) == n,
{
    let a = resolved_address(address);
    let p = resolved_port(port);
    law_listen_plan(a, p, tcp, udp);
}

} // verus!
