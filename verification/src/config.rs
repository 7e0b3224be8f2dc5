//! The configuration loader: reads the listen address and port from the
//! process argument vector, applies defaults, and validates the address as
//! an IP literal.
//!
//! Recognised options are `--port <u16>` and `--server-addr <ip>`, each
//! followed by its value in the next argument; a repeated option keeps its
//! last value. An unrecognised flag, a missing value, a non-integer or
//! out-of-range port, or an address that is not an IP literal is rejected,
//! and the caller exits with status 2 as [`ArgError::exit_code`] says.

use crate::ip::is_ip_literal;
use crate::ip::parse_ip_literal;
use crate::scan::dec_run;
use crate::scan::dec_val;
use crate::scan::is_dec_digit;
use crate::scan::is_dec_run;
use crate::scan::lemma_dec_run_digits;
use crate::scan::lemma_dec_run_stop;
use vstd::prelude::*;
use vstd::string::StrSliceExecFns;
use vstd::string::StringExecFns;
use vstd::utf8::encode_utf8;

verus! {

/// The default TCP port.
pub fn listen_port() -> (r: usize)
    ensures
        r == 7667,
{
    7667
}

/// The default listen address.
pub fn listen_addr() -> (r: &'static str)
    ensures
        r@ == "127.0.0.1"@,
{
    "127.0.0.1"
}

/// Why the argument vector was rejected.
#[derive(Clone, Copy, Debug, PartialEq, Eq, Structural)]
pub enum ArgError {
    /// An argument that is not a recognised option.
    UnknownFlag,
    /// An option at the end of the vector, with no value after it.
    MissingValue,
    /// A `--port` value with a byte that is not a decimal digit.
    PortNotInteger,
    /// A `--port` value above 65535.
    PortOutOfRange,
    /// A `--server-addr` value that is not an IPv4 or IPv6 literal.
    AddrNotIpLiteral,
}

/// The one-line diagnostic for each rejection.
pub open spec fn message_of(e: ArgError) -> Seq<char> {
    match e {
        ArgError::UnknownFlag => "unrecognized flag"@,
        ArgError::MissingValue => "option is missing its value"@,
        ArgError::PortNotInteger => "port is not an integer"@,
        ArgError::PortOutOfRange => "port is out of range for u16"@,
        ArgError::AddrNotIpLiteral => "listen address is not an IP literal"@,
    }
}

impl ArgError {
    /// A one-line human-readable diagnostic for the standard error stream.
    pub fn message(&self) -> (r: &'static str)
        ensures
            r@ == message_of(*self),
    {
        match self {
            ArgError::UnknownFlag => "unrecognized flag",
            ArgError::MissingValue => "option is missing its value",
            ArgError::PortNotInteger => "port is not an integer",
            ArgError::PortOutOfRange => "port is out of range for u16",
            ArgError::AddrNotIpLiteral => "listen address is not an IP literal",
        }
    }

    /// The process exit status for a rejected configuration.
    pub fn exit_code(&self) -> (r: i32)
        ensures
            r == 2,
    {
        2
    }
}

/// A validated server configuration.
#[derive(Debug)]
pub struct ServerConfig {
    /// The TCP port to listen on.
    pub port: u16,
    /// The listen address, a well-formed IP literal.
    pub server_addr: String,
}

impl ServerConfig {
    /// The configured address is a well-formed IP literal.
    pub open spec fn wf(self) -> bool {
        is_ip_literal(encode_utf8(self.server_addr@))
    }
}

/// One step of the argument scan: arguments before `i` are already folded
/// into `port` and `addr`; the address is validated once the whole vector
/// has been read.
pub open spec fn parse_step(args: Seq<Seq<char>>, i: int, port: u16, addr: Seq<char>) -> Result<
    (u16, Seq<char>),
    ArgError,
>
    decreases args.len() - i when 0 <= i <= args.len()
{
    if i == args.len() {
        if is_ip_literal(encode_utf8(addr)) {
            Ok((port, addr))
        } else {
            Err(ArgError::AddrNotIpLiteral)
        }
    } else if args[i] == "--port"@ {
        if i + 1 == args.len() {
            Err(ArgError::MissingValue)
        } else {
            let digits = encode_utf8(args[i + 1]);
            if !is_dec_run(digits) {
                Err(ArgError::PortNotInteger)
            } else if dec_val(digits) > 0xffff {
                Err(ArgError::PortOutOfRange)
            } else {
                parse_step(args, i + 2, dec_val(digits) as u16, addr)
            }
        }
    } else if args[i] == "--server-addr"@ {
        if i + 1 == args.len() {
            Err(ArgError::MissingValue)
        } else {
            parse_step(args, i + 2, port, args[i + 1])
        }
    } else {
        Err(ArgError::UnknownFlag)
    }
}

/// What the whole argument vector parses to: the defaults, folded through
/// every option in order.
pub open spec fn parsed_config(args: Seq<Seq<char>>) -> Result<(u16, Seq<char>), ArgError> {
    parse_step(args, 0, 7667 as u16, "127.0.0.1"@)
}

/// Parses a decimal port number: all bytes must be decimal digits and the
/// value must fit in a `u16`.
pub fn parse_port(v: &Vec<u8>) -> (r: Result<u16, ArgError>)
    ensures
        !is_dec_run(v@) ==> r == Err::<u16, ArgError>(ArgError::PortNotInteger),
        is_dec_run(v@) && dec_val(v@) > 0xffff ==> r == Err::<u16, ArgError>(
            ArgError::PortOutOfRange,
        ),
        is_dec_run(v@) && dec_val(v@) <= 0xffff ==> r == Ok::<u16, ArgError>(
            dec_val(v@) as u16,
        ),
{
    let run = dec_run(v, 0);
    if v.len() == 0 || run != v.len() {
        proof {
            lemma_dec_run_stop(v@, 0);
            if v@.len() > 0 && run < v@.len() {
                assert(!is_dec_digit(v@[run as int]));
            }
        }
        return Err(ArgError::PortNotInteger);
    }
    proof {
        assert forall|j: int| 0 <= j < v@.len() implies is_dec_digit(#[trigger] v@[j]) by {
            lemma_dec_run_digits(v@, 0, j);
        }
    }
    let mut acc: u32 = 0;
    let mut i: usize = 0;
    while i < v.len()
        invariant
            0 <= i <= v@.len(),
            forall|j: int| 0 <= j < v@.len() ==> is_dec_digit(#[trigger] v@[j]),
            acc <= 0x10000,
            dec_val(v@.subrange(0, i as int)) <= 0xffff ==> acc == dec_val(
                v@.subrange(0, i as int),
            ),
            dec_val(v@.subrange(0, i as int)) > 0xffff ==> acc == 0x10000,
        decreases v@.len() - i,
    {
        let ghost pre = v@.subrange(0, i as int);
        let d = (v[i] - 0x30) as u32;
        acc = acc * 10 + d;
        if acc > 0xffff {
            acc = 0x10000;
        }
        i = i + 1;
        proof {
            let post = v@.subrange(0, i as int);
            assert(post.drop_last() =~= pre);
            assert(post.last() == v@[i - 1]);
            assert(dec_val(post) == dec_val(pre) * 10 + (v@[i - 1] - 0x30));
        }
    }
    proof {
        assert(v@.subrange(0, i as int) =~= v@);
    }
    if acc > 0xffff {
        Err(ArgError::PortOutOfRange)
    } else {
        Ok(acc as u16)
    }
}

/// Reads a `ServerConfig` from the argument vector (the process arguments
/// without the program name). Returns exactly what [`parsed_config`] says:
/// defaults of port 7667 and address `127.0.0.1`, overridden left to right
/// by `--port` and `--server-addr`, every rejection reported as its
/// [`ArgError`]. No partial configuration is ever returned.
pub fn parse_args(args: &Vec<String>) -> (r: Result<ServerConfig, ArgError>)
    ensures
        match r {
            Ok(c) => parsed_config(args.deep_view()) == Ok::<(u16, Seq<char>), ArgError>(
                (c.port, c.server_addr@),
            ) && c.wf(),
            Err(e) => parsed_config(args.deep_view()) == Err::<(u16, Seq<char>), ArgError>(e),
        },
{
    let flag_port = String::from_str("--port");
    let flag_addr = String::from_str("--server-addr");
    let mut port: u16 = 7667;
    let mut addr = String::from_str(listen_addr());
    let mut i: usize = 0;
    while i < args.len()
        invariant
            0 <= i <= args@.len(),
            args.deep_view().len() == args@.len(),
            flag_port@ == "--port"@,
            flag_addr@ == "--server-addr"@,
            parsed_config(args.deep_view()) == parse_step(args.deep_view(), i as int, port, addr@),
        decreases args@.len() - i,
    {
        proof {
            assert(args.deep_view()[i as int] == args@[i as int]@);
            if i + 1 < args@.len() {
                assert(args.deep_view()[i as int + 1] == args@[i as int + 1]@);
            }
        }
        let a = &args[i];
        if *a == flag_port {
            if i + 1 == args.len() {
                return Err(ArgError::MissingValue);
            }
            let vb = args[i + 1].as_str().as_bytes_vec();
            match parse_port(&vb) {
                Ok(p) => {
                    port = p;
                    i = i + 2;
                },
                Err(e) => {
                    return Err(e);
                },
            }
        } else if *a == flag_addr {
            if i + 1 == args.len() {
                return Err(ArgError::MissingValue);
            }
            addr = args[i + 1].clone();
            i = i + 2;
        } else {
            return Err(ArgError::UnknownFlag);
        }
    }
    let ab = addr.as_str().as_bytes_vec();
    if parse_ip_literal(&ab) {
        Ok(ServerConfig { port, server_addr: addr })
    } else {
        Err(ArgError::AddrNotIpLiteral)
    }
}

} // verus!
