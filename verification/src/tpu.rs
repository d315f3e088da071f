use vstd::prelude::*;

use crate::errors::ProxyError;

verus! {

/// An IPv4 address as four plain octets.
#[derive(Debug, Clone, Copy, PartialEq, Eq)]
pub struct Ipv4Address {
    pub octets: [u8; 4],
}

/// A resolved socket: an IPv4 address and a port.
#[derive(Debug, Clone, Copy, PartialEq, Eq)]
pub struct SocketAddress {
    pub ip: Ipv4Address,
    pub port: u16,
}

/// The TPU socket pair resolved once per connection from the relayer's
/// advertised endpoint configuration, and replayed verbatim to the
/// heartbeat sink on every heartbeat signal.
#[derive(Debug, Clone, Copy, PartialEq, Eq)]
pub struct HeartbeatEvent {
    pub tpu: SocketAddress,
    pub tpu_forward: SocketAddress,
}

/// One advertised socket as it arrives on the wire: a textual IP and a
/// wide port field.
pub struct TpuSocketConfig {
    pub ip: String,
    pub port: u32,
}

/// The relayer's advertised endpoint configuration; either socket may be
/// missing.
pub struct TpuConfigResponse {
    pub tpu: Option<TpuSocketConfig>,
    pub tpu_forward: Option<TpuSocketConfig>,
}

pub open spec fn is_dec_digit(c: char) -> bool {
    48 <= c as int <= 57
}

/// Value of a decimal numeral, most significant digit first.
pub open spec fn decimal_value(p: Seq<char>) -> int
    decreases p.len(),
{
    if p.len() == 0 {
        0
    } else {
        decimal_value(p.drop_last()) * 10 + (p.last() as int - 48)
    }
}

/// A valid textual IPv4 octet: one to three decimal digits, no leading
/// zero, value at most 255.
pub open spec fn is_valid_octet_text(p: Seq<char>) -> bool {
    &&& 1 <= p.len() <= 3
    &&& (forall|i: int| 0 <= i < p.len() ==> is_dec_digit(#[trigger] p[i]))
    &&& (p.len() > 1 ==> p[0] != '0')
    &&& decimal_value(p) <= 255
}

/// The segments of `s` between dots. The empty text has one empty
/// segment; every dot ends the current segment and opens a new one.
pub open spec fn split_dots(s: Seq<char>) -> Seq<Seq<char>>
    decreases s.len(),
{
    if s.len() == 0 {
        seq![Seq::<char>::empty()]
    } else if s.last() == '.' {
        split_dots(s.drop_last()).push(Seq::<char>::empty())
    } else {
        let parts = split_dots(s.drop_last());
        parts.update(parts.len() - 1, parts.last().push(s.last()))
    }
}

pub proof fn lemma_split_dots_nonempty(s: Seq<char>)
    ensures
        split_dots(s).len() >= 1,
    decreases s.len(),
{
    if s.len() > 0 {
        lemma_split_dots_nonempty(s.drop_last());
    }
}

/// A valid dotted-quad text: exactly four segments, each a valid octet.
pub open spec fn is_valid_ipv4_text(s: Seq<char>) -> bool {
    &&& split_dots(s).len() == 4
    &&& (forall|i: int| 0 <= i < 4 ==> is_valid_octet_text(#[trigger] split_dots(s)[i]))
}

/// The value of the `i`-th octet of a dotted-quad text.
pub open spec fn ipv4_octet_value(s: Seq<char>, i: int) -> int {
    decimal_value(split_dots(s)[i])
}

/// A numeral of `n` digits is below ten to the `n`.
proof fn lemma_decimal_value_bound(p: Seq<char>)
    requires
        forall|i: int| 0 <= i < p.len() ==> is_dec_digit(#[trigger] p[i]),
        p.len() <= 3,
    ensures
        0 <= decimal_value(p),
        p.len() == 0 ==> decimal_value(p) == 0,
        p.len() <= 1 ==> decimal_value(p) < 10,
        p.len() <= 2 ==> decimal_value(p) < 100,
        decimal_value(p) < 1000,
    decreases p.len(),
{
    if p.len() > 0 {
        let q = p.drop_last();
        assert(forall|i: int| 0 <= i < q.len() ==> is_dec_digit(#[trigger] q[i]));
        lemma_decimal_value_bound(q);
    }
}

/// Parses one dot-free segment as an IPv4 octet; accepts exactly the
/// valid octet texts and returns the numeral's value.
pub fn parse_octet(seg: &Vec<char>) -> (r: Option<u8>)
    ensures
        r is Some <==> is_valid_octet_text(seg@),
        r matches Some(v) ==> v as int == decimal_value(seg@),
{
    let n = seg.len();
    if n == 0 || n > 3 {
        return None;
    }
    if n > 1 && seg[0] == '0' {
        return None;
    }
    let mut val: u16 = 0;
    let mut i: usize = 0;
    while i < n
        invariant
            i <= n,
            n == seg@.len(),
            1 <= n <= 3,
            forall|j: int| 0 <= j < i ==> is_dec_digit(#[trigger] seg@[j]),
            val as int == decimal_value(seg@.take(i as int)),
        decreases n - i,
    {
        proof {
            let prefix = seg@.take(i as int);
            assert(forall|j: int| 0 <= j < prefix.len() ==> is_dec_digit(#[trigger] prefix[j]));
            lemma_decimal_value_bound(prefix);
        }
        let c = seg[i];
        if c < '0' || c > '9' {
            return None;
        }
        proof {
            assert(seg@.take(i as int + 1).drop_last() =~= seg@.take(i as int));
            assert(seg@.take(i as int + 1).last() == seg@[i as int]);
        }
        val = val * 10 + (c as u32 - 48) as u16;
        i = i + 1;
    }
    proof {
        assert(seg@.take(n as int) =~= seg@);
    }
    if val > 255 {
        None
    } else {
        Some(val as u8)
    }
}

/// Parses a dotted-quad IPv4 text; accepts exactly the texts of
/// [`is_valid_ipv4_text`] and returns the four octet values in order.
pub fn parse_ipv4(s: &str) -> (r: Option<Ipv4Address>)
    ensures
        r is Some <==> is_valid_ipv4_text(s@),
        r matches Some(ip) ==> forall|i: int|
            0 <= i < 4 ==> ip.octets@[i] as int == ipv4_octet_value(s@, i),
{
    let n = s.unicode_len();
    let mut segs: Vec<Vec<char>> = Vec::new();
    let mut cur: Vec<char> = Vec::new();
    let mut i: usize = 0;
    proof {
        assert(s@.take(0) =~= Seq::<char>::empty());
        assert(split_dots(s@.take(0)) =~~= segs.deep_view().push(cur.deep_view()));
    }
    while i < n
        invariant
            i <= n,
            n == s@.len(),
            split_dots(s@.take(i as int)) == segs.deep_view().push(cur.deep_view()),
        decreases n - i,
    {
        let c = s.get_char(i);
        proof {
            assert(s@.take(i as int + 1).drop_last() =~= s@.take(i as int));
            assert(s@.take(i as int + 1).last() == s@[i as int]);
            lemma_split_dots_nonempty(s@.take(i as int));
        }
        if c == '.' {
            segs.push(cur);
            cur = Vec::new();
            proof {
                assert(split_dots(s@.take(i as int + 1)) =~~= segs.deep_view().push(
                    cur.deep_view(),
                ));
            }
        } else {
            cur.push(c);
            proof {
                assert(split_dots(s@.take(i as int + 1)) =~~= segs.deep_view().push(
                    cur.deep_view(),
                ));
            }
        }
        i = i + 1;
    }
    proof {
        assert(s@.take(n as int) =~= s@);
    }
    segs.push(cur);
    proof {
        assert(segs.deep_view() =~~= split_dots(s@));
    }
    if segs.len() != 4 {
        return None;
    }
    proof {
        assert(forall|j: int|
            0 <= j < 4 ==> #[trigger] split_dots(s@)[j] == segs@[j].deep_view());
        assert(segs@[0].deep_view() =~= segs@[0]@);
        assert(segs@[1].deep_view() =~= segs@[1]@);
        assert(segs@[2].deep_view() =~= segs@[2]@);
        assert(segs@[3].deep_view() =~= segs@[3]@);
    }
    let o0 = parse_octet(&segs[0]);
    let o1 = parse_octet(&segs[1]);
    let o2 = parse_octet(&segs[2]);
    let o3 = parse_octet(&segs[3]);
    match (o0, o1, o2, o3) {
        (Some(a), Some(b), Some(c), Some(d)) => {
            let ip = Ipv4Address { octets: [a, b, c, d] };
            proof {
                assert(ip.octets@ =~= seq![a, b, c, d]);
                assert(forall|i: int|
                    0 <= i < 4 ==> is_valid_octet_text(#[trigger] split_dots(s@)[i])) by {
                    assert(is_valid_octet_text(split_dots(s@)[0]));
                    assert(is_valid_octet_text(split_dots(s@)[1]));
                    assert(is_valid_octet_text(split_dots(s@)[2]));
                    assert(is_valid_octet_text(split_dots(s@)[3]));
                }
                assert(is_valid_ipv4_text(s@));
                assert(ip.octets@[0] == a && ip.octets@[1] == b && ip.octets@[2] == c
                    && ip.octets@[3] == d);
            }
            Some(ip)
        },
        _ => {
            proof {
                if is_valid_ipv4_text(s@) {
                    assert(is_valid_octet_text(split_dots(s@)[0]));
                    assert(is_valid_octet_text(split_dots(s@)[1]));
                    assert(is_valid_octet_text(split_dots(s@)[2]));
                    assert(is_valid_octet_text(split_dots(s@)[3]));
                    assert(false);
                }
            }
            None
        },
    }
}

/// Builds the connection's `HeartbeatEvent` from the relayer's advertised
/// endpoint configuration: both sockets must be present and their IPs must
/// be valid dotted-quad texts. The wide wire port is truncated to 16 bits.
/// A `BadTpuSocket` error carries the offending IP text.
pub fn heartbeat_event_from_config(cfg: &TpuConfigResponse) -> (r: Result<
    HeartbeatEvent,
    ProxyError,
>)
    ensures
        cfg.tpu is None ==> (r matches Err(e) && e matches ProxyError::MissingTpuSocket(m) && m@
            == "tpu"@),
        (cfg.tpu is Some && cfg.tpu_forward is None) ==> (r matches Err(e)
            && e matches ProxyError::MissingTpuSocket(m) && m@ == "tpu_fwd"@),
        cfg.tpu matches Some(t) ==> (cfg.tpu_forward is Some ==> (!is_valid_ipv4_text(t.ip@) ==> (
        r matches Err(e) && e matches ProxyError::BadTpuSocket(m) && m@ == t.ip@))),
        cfg.tpu matches Some(t) ==> (cfg.tpu_forward matches Some(f) ==> ((is_valid_ipv4_text(
            t.ip@,
        ) && !is_valid_ipv4_text(f.ip@)) ==> (r matches Err(e)
            && e matches ProxyError::BadTpuSocket(m) && m@ == f.ip@))),
        cfg.tpu matches Some(t) ==> (cfg.tpu_forward matches Some(f) ==> ((is_valid_ipv4_text(
            t.ip@,
        ) && is_valid_ipv4_text(f.ip@)) ==> (r matches Ok(ev) && (forall|i: int|
            0 <= i < 4 ==> ev.tpu.ip.octets@[i] as int == ipv4_octet_value(t.ip@, i)) && (
        forall|i: int|
            0 <= i < 4 ==> ev.tpu_forward.ip.octets@[i] as int == ipv4_octet_value(f.ip@, i))
            && ev.tpu.port == t.port as u16 && ev.tpu_forward.port == f.port as u16))),
{
    let tpu_cfg = match &cfg.tpu {
        None => {
            return Err(ProxyError::MissingTpuSocket(String::from_str("tpu")));
        },
        Some(t) => t,
    };
    let tpu_forward_cfg = match &cfg.tpu_forward {
        None => {
            return Err(ProxyError::MissingTpuSocket(String::from_str("tpu_fwd")));
        },
        Some(f) => f,
    };
    let tpu_ip = match parse_ipv4(tpu_cfg.ip.as_str()) {
        None => {
            return Err(ProxyError::BadTpuSocket(tpu_cfg.ip.clone()));
        },
        Some(ip) => ip,
    };
    let tpu_forward_ip = match parse_ipv4(tpu_forward_cfg.ip.as_str()) {
        None => {
            return Err(ProxyError::BadTpuSocket(tpu_forward_cfg.ip.clone()));
        },
        Some(ip) => ip,
    };
    let tpu_port: u16 = #[verifier::truncate] (tpu_cfg.port as u16);
    let tpu_forward_port: u16 = #[verifier::truncate] (tpu_forward_cfg.port as u16);
    Ok(
        HeartbeatEvent {
            tpu: SocketAddress { ip: tpu_ip, port: tpu_port },
            tpu_forward: SocketAddress { ip: tpu_forward_ip, port: tpu_forward_port },
        },
    )
}

} // verus!
