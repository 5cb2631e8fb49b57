//! Configuration-time choice of backend.
//!
//! The persistence subsystem is initialized with an address whose scheme
//! selects the backend implementation. The choice is made once, before any
//! connection attempt; a scheme that names no supported backend is a fatal
//! configuration error, never a runtime dispatch failure.

use vstd::prelude::*;

verus! {

/// The supported backend kinds, selected once from the scheme of the
/// configured address.
#[derive(Clone, Copy, Debug, PartialEq, Eq, Structural)]
pub enum BackendKind {
    /// A plain connection to the key-value store ("redis").
    Redis,
    /// A TLS connection to the key-value store ("rediss").
    RedisTls,
}

/// A fatal configuration error, detected before any connection attempt.
#[derive(Clone, Copy, Debug, PartialEq, Eq, Structural)]
pub enum ConfigError {
    /// The address's scheme names no supported backend.
    UnknownScheme,
}

/// One byte lowercased, if it is an ASCII capital.
pub open spec fn ascii_lower(c: u8) -> u8 {
    if 65 <= c <= 90 {
        (c + 32) as u8
    } else {
        c
    }
}

/// A byte sequence with every ASCII capital lowercased.
pub open spec fn ascii_lower_seq(s: Seq<u8>) -> Seq<u8> {
    s.map_values(|c: u8| ascii_lower(c))
}

/// The scheme bytes "redis".
pub open spec fn redis_scheme() -> Seq<u8> {
    seq![114u8, 101u8, 100u8, 105u8, 115u8]
}

/// The scheme bytes "rediss".
pub open spec fn rediss_scheme() -> Seq<u8> {
    seq![114u8, 101u8, 100u8, 105u8, 115u8, 115u8]
}

/// One byte lowercased, if it is an ASCII capital.
fn lower_byte(c: u8) -> (r: u8)
    ensures
        r == ascii_lower(c),
{
    if 65 <= c && c <= 90 {
        c + 32
    } else {
        c
    }
}

/// Selects the backend kind for an address scheme, given as its bytes and
/// compared ASCII case-insensitively: "redis" and "rediss" are the
/// recognized schemes, and any other scheme is a configuration error.
pub fn backend_for_scheme(scheme: &[u8]) -> (r: Result<BackendKind, ConfigError>)
    ensures
        r == Ok::<BackendKind, ConfigError>(BackendKind::Redis) <==> ascii_lower_seq(scheme@)
            == redis_scheme(),
        r == Ok::<BackendKind, ConfigError>(BackendKind::RedisTls) <==> ascii_lower_seq(scheme@)
            == rediss_scheme(),
        r is Err ==> r == Err::<BackendKind, ConfigError>(ConfigError::UnknownScheme),
{
    let mut lowered: Vec<u8> = Vec::new();
    let mut i: usize = 0;
    while i < scheme.len()
        invariant
            i <= scheme@.len(),
            lowered@ == ascii_lower_seq(scheme@.take(i as int)),
        decreases scheme@.len() - i,
    {
        proof {
            assert(ascii_lower_seq(scheme@.take(i + 1)) =~= ascii_lower_seq(
                scheme@.take(i as int),
            ).push(ascii_lower(scheme@[i as int])));
        }
        lowered.push(lower_byte(scheme[i]));
        i += 1;
    }
    proof {
        assert(scheme@.take(scheme@.len() as int) =~= scheme@);
    }
    if matches_redis(&lowered) {
        Ok(BackendKind::Redis)
    } else if matches_rediss(&lowered) {
        Ok(BackendKind::RedisTls)
    } else {
        proof {
            assert(ascii_lower_seq(scheme@) != redis_scheme());
            assert(ascii_lower_seq(scheme@) != rediss_scheme());
        }
        Err(ConfigError::UnknownScheme)
    }
}

/// Whether these bytes are exactly "redis".
fn matches_redis(s: &Vec<u8>) -> (r: bool)
    ensures
        r == (s@ == redis_scheme()),
{
    let r = s.len() == 5 && s[0] == 114 && s[1] == 101 && s[2] == 100 && s[3] == 105 && s[4]
        == 115;
    proof {
        if r {
            assert(s@ =~= redis_scheme());
        } else {
            assert(s@ != redis_scheme());
        }
    }
    r
}

/// Whether these bytes are exactly "rediss".
fn matches_rediss(s: &Vec<u8>) -> (r: bool)
    ensures
        r == (s@ == rediss_scheme()),
{
    let r = s.len() == 6 && s[0] == 114 && s[1] == 101 && s[2] == 100 && s[3] == 105 && s[4]
        == 115 && s[5] == 115;
    proof {
        if r {
            assert(s@ =~= rediss_scheme());
        } else {
            assert(s@ != rediss_scheme());
        }
    }
    r
}

} // verus!
