use vstd::prelude::*;
use vstd::arithmetic::power2::pow2;
use crate::schemas::AclCidrBlock;

verus! {

/// Whether the bits of `address` past the first `network_length` are zero.
pub open spec fn host_part_zero(address: u32, network_length: u8) -> bool {
    network_length >= 32 || (address as nat) % pow2((32 - network_length) as nat) == 0
}

/// An IPv4 network: its first address, as a number, and the length of its
/// prefix.
#[derive(Clone, Copy, Debug, PartialEq, Eq, Structural)]
pub struct Ipv4Block {
    pub address: u32,
    pub network_length: u8,
}

impl Ipv4Block {
    pub open spec fn wf(&self) -> bool {
        self.network_length <= 32 && host_part_zero(self.address, self.network_length)
    }

    /// Whether the network is one single address.
    pub fn is_host_address(&self) -> (r: bool)
        ensures
            r == (self.network_length == 32),
    {
        self.network_length == 32
    }
}

/// What `cidr::Ipv4Cidr` makes of a string: the network, or the text of its
/// parse error.
pub uninterp spec fn ipv4_cidr_from_str(s: Seq<char>) -> core::result::Result<(u32, u8), Seq<char>>;

/// Relies on `<cidr::Ipv4Cidr as FromStr>::from_str`, which builds every
/// network through `Ipv4Cidr::new` or `Ipv4Cidr::new_host`: a prefix of at
/// most 32 bits whose host part is zero.
#[verifier::external_body]
fn parse_ipv4_cidr(s: &str) -> (r: Result<Ipv4Block, String>)
    ensures
        match r {
            Ok(b) => ipv4_cidr_from_str(s@) == Ok::<(u32, u8), Seq<char>>((b.address, b.network_length))
                && b.wf(),
            Err(m) => ipv4_cidr_from_str(s@) == Err::<(u32, u8), Seq<char>>(m@),
        },
{
    match s.parse::<cidr::Ipv4Cidr>() {
        Ok(c) => Ok(Ipv4Block { address: u32::from(c.first_address()), network_length: c.network_length() }),
        Err(e) => Err(e.to_string()),
    }
}

/// What `cidr::Ipv4Cidr` displays for a network.
pub uninterp spec fn ipv4_cidr_display(address: u32, network_length: u8) -> Seq<char>;

/// Relies on `<cidr::Ipv4Cidr as Display>::fmt`: the network's text, in
/// which a single address shows no prefix length.
#[verifier::external_body]
fn display_ipv4_cidr(block: &Ipv4Block) -> (r: String)
    requires
        block.wf(),
    ensures
        r@ == ipv4_cidr_display(block.address, block.network_length),
{
    match cidr::Ipv4Cidr::new(block.address.into(), block.network_length) {
        Ok(c) => c.to_string(),
        Err(e) => e.to_string(),
    }
}

/// The network written in CIDR notation, with `/32` added where the network
/// is a single address, which would otherwise show as a bare address.
pub open spec fn cidr_text(block: Ipv4Block) -> Seq<char> {
    if block.network_length == 32 {
        ipv4_cidr_display(block.address, block.network_length) + "/32"@
    } else {
        ipv4_cidr_display(block.address, block.network_length)
    }
}

pub fn cidr_to_string(block: Ipv4Block) -> (r: String)
    requires
        block.wf(),
    ensures
        r@ == cidr_text(block),
{
    let text = display_ipv4_cidr(&block);
    if block.is_host_address() {
        text.concat("/32")
    } else {
        text
    }
}

/// Parses an IPv4 network in CIDR notation.
pub fn parse_cidr(src: &str) -> (r: Result<Ipv4Block, String>)
    ensures
        match r {
            Ok(b) => ipv4_cidr_from_str(src@) == Ok::<(u32, u8), Seq<char>>((b.address, b.network_length))
                && b.wf(),
            Err(m) => ipv4_cidr_from_str(src@) == Err::<(u32, u8), Seq<char>>(m@),
        },
{
    parse_ipv4_cidr(src)
}

/// The position of the first comma in `s`, if any.
pub open spec fn first_comma(s: Seq<char>) -> Option<int> {
    if exists|i: int| 0 <= i < s.len() && s[i] == ',' {
        Some(choose|i: int| 0 <= i < s.len() && s[i] == ',' && forall|j: int| 0 <= j < i ==> s[j] != ',')
    } else {
        None
    }
}

fn find_comma(s: &str) -> (r: Option<usize>)
    ensures
        match r {
            Some(i) => i < s@.len() && s@[i as int] == ',' && forall|j: int| 0 <= j < i ==> s@[j] != ',',
            None => forall|j: int| 0 <= j < s@.len() ==> s@[j] != ',',
        },
{
    let n = s.unicode_len();
    let mut i: usize = 0;
    while i < n
        invariant
            n == s@.len(),
            i <= n,
            forall|j: int| 0 <= j < i ==> s@[j] != ',',
        decreases n - i,
    {
        if s.get_char(i) == ',' {
            return Some(i);
        }
        i = i + 1;
    }
    None
}

/// What a network given on the command line becomes: `address[,comment]`,
/// split at the first comma.
pub open spec fn cidr_input_result(s: Seq<char>, r: Result<AclCidrBlock, String>) -> bool {
    let (net, comment) = match first_comma(s) {
        Some(i) => (s.subrange(0, i), Some(s.subrange(i + 1, s.len() as int))),
        None => (s, None),
    };
    match ipv4_cidr_from_str(net) {
        Ok((address, network_length)) => r matches Ok(block)
            && block.address@ == cidr_text(Ipv4Block { address, network_length })
            && match comment {
                Some(c) => block.comment matches Some(bc) && bc@ == c,
                None => block.comment is None,
            },
        Err(e) => r matches Err(m) && m@ == "Invalid CIDR input: "@ + e,
    }
}

/// Parses an access-list entry: a network in CIDR notation, optionally
/// followed by a comma and a comment.
pub fn parse_cidr_input(s: &str) -> (r: Result<AclCidrBlock, String>)
    ensures
        cidr_input_result(s@, r),
{
    let comma = find_comma(s);
    proof {
        match comma {
            Some(i) => {
                assert(exists|k: int| 0 <= k < s@.len() && s@[k] == ',') by {
                    assert(s@[i as int] == ',');
                }
                let c = first_comma(s@).unwrap();
                assert(c == i) by {
                    if c < i {
                        assert(s@[c] != ',');
                    } else if c > i {
                        assert(s@[i as int] == ',');
                    }
                }
            },
            None => {},
        }
    }
    let (net, comment) = match comma {
        Some(i) => {
            let n = s.unicode_len();
            (s.substring_char(0, i), Some(String::from_str(s.substring_char(i + 1, n))))
        },
        None => (s, None),
    };
    match parse_ipv4_cidr(net) {
        Ok(block) => Ok(AclCidrBlock { address: cidr_to_string(block), comment }),
        Err(e) => {
            let message = String::from_str("Invalid CIDR input: ");
            Err(message.concat(e.as_str()))
        },
    }
}

} // verus!
