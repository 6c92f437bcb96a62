use vstd::prelude::*;
use vstd::string::StringExecFns;

verus! {

/// The decimal digit `d` as a character.
pub open spec fn digit_char(d: nat) -> char {
    if d == 0 {
        '0'
    } else if d == 1 {
        '1'
    } else if d == 2 {
        '2'
    } else if d == 3 {
        '3'
    } else if d == 4 {
        '4'
    } else if d == 5 {
        '5'
    } else if d == 6 {
        '6'
    } else if d == 7 {
        '7'
    } else if d == 8 {
        '8'
    } else {
        '9'
    }
}

/// The decimal notation of `n`, without leading zeros.
pub open spec fn decimal(n: nat) -> Seq<char>
    decreases n,
{
    if n < 10 {
        seq![digit_char(n)]
    } else {
        decimal(n / 10).push(digit_char(n % 10))
    }
}

/// The socket address `host:port` of the collector.
pub open spec fn address_of(hostname: Seq<char>, port: nat) -> Seq<char> {
    hostname + seq![':'] + decimal(port)
}

/// What is written to the stream for a batch whose records were rendered
/// into `formatted`: the rendered records in order, leaving out each record
/// that could not be rendered.
pub open spec fn rendered(formatted: Seq<Option<String>>) -> Seq<Seq<char>>
    decreases formatted.len(),
{
    if formatted.len() == 0 {
        Seq::empty()
    } else {
        match formatted.last() {
            Some(text) => rendered(formatted.drop_last()).push(text@),
            None => rendered(formatted.drop_last()),
        }
    }
}

fn digit_str(d: u64) -> (r: &'static str)
    requires
        d < 10,
    ensures
        r@ == seq![digit_char(d as nat)],
{
    proof {
        reveal_strlit("0");
        reveal_strlit("1");
        reveal_strlit("2");
        reveal_strlit("3");
        reveal_strlit("4");
        reveal_strlit("5");
        reveal_strlit("6");
        reveal_strlit("7");
        reveal_strlit("8");
        reveal_strlit("9");
    }
    if d == 0 {
        "0"
    } else if d == 1 {
        "1"
    } else if d == 2 {
        "2"
    } else if d == 3 {
        "3"
    } else if d == 4 {
        "4"
    } else if d == 5 {
        "5"
    } else if d == 6 {
        "6"
    } else if d == 7 {
        "7"
    } else if d == 8 {
        "8"
    } else {
        "9"
    }
}

fn push_decimal(s: &mut String, n: u64)
    ensures
        final(s)@ == old(s)@ + decimal(n as nat),
    decreases n,
{
    if n >= 10 {
        push_decimal(s, n / 10);
    }
    s.append(digit_str(n % 10));
    proof {
        assert(old(s)@ + decimal(n as nat) =~= if n >= 10 {
            old(s)@ + decimal((n / 10) as nat) + seq![digit_char((n % 10) as nat)]
        } else {
            old(s)@ + seq![digit_char((n % 10) as nat)]
        });
    }
}

/// Where and how batches are delivered: the collector's host and port,
/// the formatter that renders each record, and whether the stream is
/// encrypted. A new connection is opened for every batch.
pub struct GelfTcpOutput<F> {
    hostname: String,
    port: u64,
    formatter: F,
    use_tls: bool,
}

impl<F> GelfTcpOutput<F> {
    pub closed spec fn spec_hostname(&self) -> Seq<char> {
        self.hostname@
    }

    pub closed spec fn spec_port(&self) -> u64 {
        self.port
    }

    pub closed spec fn spec_formatter(&self) -> F {
        self.formatter
    }

    pub closed spec fn spec_use_tls(&self) -> bool {
        self.use_tls
    }

    /// An output to `hostname:port`, encrypted when `use_tls` holds.
    pub fn new(hostname: String, port: u64, formatter: F, use_tls: bool) -> (r: GelfTcpOutput<F>)
        ensures
            r.spec_hostname() == hostname@,
            r.spec_port() == port,
            r.spec_formatter() == formatter,
            r.spec_use_tls() == use_tls,
    {
        GelfTcpOutput { hostname, port, formatter, use_tls }
    }

    /// The collector's host name; it also names the peer of an encrypted
    /// session.
    pub fn hostname(&self) -> (r: &String)
        ensures
            r@ == self.spec_hostname(),
    {
        &self.hostname
    }

    /// The collector's port.
    pub fn port(&self) -> (r: u64)
        ensures
            r == self.spec_port(),
    {
        self.port
    }

    /// The formatter that renders each record.
    pub fn formatter(&self) -> (r: &F)
        ensures
            *r == self.spec_formatter(),
    {
        &self.formatter
    }

    /// Whether the stream is encrypted.
    pub fn use_tls(&self) -> (r: bool)
        ensures
            r == self.spec_use_tls(),
    {
        self.use_tls
    }

    /// The socket address to connect to, `hostname:port`.
    pub fn address(&self) -> (r: String)
        ensures
            r@ == address_of(self.spec_hostname(), self.spec_port() as nat),
    {
        let mut r = self.hostname.clone();
        r.append(":");
        proof {
            reveal_strlit(":");
        }
        push_decimal(&mut r, self.port);
        r
    }
}

/// The texts to write for a batch, given each record's rendering (`None`
/// where it could not be rendered): the renderings in batch order, with
/// the failed ones left out.
pub fn payloads(formatted: &Vec<Option<String>>) -> (r: Vec<String>)
    ensures
        r@.map_values(|t: String| t@) == rendered(formatted@),
{
    let mut out: Vec<String> = Vec::new();
    let mut i: usize = 0;
    while i < formatted.len()
        invariant
            i <= formatted@.len(),
            out@.map_values(|t: String| t@) == rendered(formatted@.take(i as int)),
        decreases formatted@.len() - i,
    {
        proof {
            assert(formatted@.take(i as int + 1).drop_last() =~= formatted@.take(i as int));
        }
        match &formatted[i] {
            Some(text) => {
                out.push(text.clone());
                proof {
                    assert(out@.map_values(|t: String| t@) =~= rendered(
                        formatted@.take(i as int),
                    ).push(text@));
                }
            },
            None => {},
        }
        i = i + 1;
    }
    proof {
        assert(formatted@.take(i as int) =~= formatted@);
    }
    out
}

} // verus!
