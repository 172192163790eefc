//! The algorithmic heart: big-endian counter encoding, RFC 4226 dynamic
//! truncation of an HMAC digest to a fixed-width decimal token, and the
//! deterministic key-URI serializer.

use crate::algorithm::{hmac_bytes, spec_uri_name, Algorithm};
use crate::decimal::{
    dec_str, lemma_dec_str_len, lemma_pow10_mono, lemma_pow10_pos, padded_dec, pow10,
    u64_to_padded_string, u64_to_string,
};
use crate::encoding::{percent_encode, percent_encoded};
use crate::error::OTPError;
use vstd::prelude::*;

verus! {

/// The eight bytes of `c`, most significant first.
pub open spec fn be_bytes(c: u64) -> Seq<u8> {
    seq![
        ((c >> 56) & 0xff) as u8,
        ((c >> 48) & 0xff) as u8,
        ((c >> 40) & 0xff) as u8,
        ((c >> 32) & 0xff) as u8,
        ((c >> 24) & 0xff) as u8,
        ((c >> 16) & 0xff) as u8,
        ((c >> 8) & 0xff) as u8,
        (c & 0xff) as u8,
    ]
}

proof fn lemma_low_byte_u64()
    by (bit_vector)
    ensures
        forall|x: u64| #[trigger] (x & 0xff) < 256,
{
}

proof fn lemma_low_nibble_u8()
    by (bit_vector)
    ensures
        forall|x: u8| #[trigger] (x & 0x0f) < 16,
{
}

proof fn lemma_low_seven_bits_u8()
    by (bit_vector)
    ensures
        forall|x: u8| #[trigger] (x & 0x7f) < 128,
{
}

/// Encodes a counter as the 8-byte big-endian message that HMAC signs.
fn counter_bytes(c: u64) -> (r: Vec<u8>)
    ensures
        r@ == be_bytes(c),
{
    proof {
        lemma_low_byte_u64();
    }
    let mut v: Vec<u8> = Vec::new();
    v.push(((c >> 56) & 0xff) as u8);
    v.push(((c >> 48) & 0xff) as u8);
    v.push(((c >> 40) & 0xff) as u8);
    v.push(((c >> 32) & 0xff) as u8);
    v.push(((c >> 24) & 0xff) as u8);
    v.push(((c >> 16) & 0xff) as u8);
    v.push(((c >> 8) & 0xff) as u8);
    v.push((c & 0xff) as u8);
    proof {
        assert(v@ =~= be_bytes(c));
    }
    v
}

/// The offset of the 4-byte window that the low nibble of the last digest
/// byte selects.
pub open spec fn dt_offset(hash: Seq<u8>) -> int {
    (hash[hash.len() - 1] & 0x0f) as int
}

/// The 31-bit big-endian integer that dynamic truncation extracts from the
/// digest: the window's first byte with its top bit masked off, followed by
/// the next three bytes.
pub open spec fn dt_binary(hash: Seq<u8>) -> nat {
    let off = dt_offset(hash);
    ((hash[off] & 0x7f) as nat) * 0x1000000 + (hash[off + 1] as nat) * 0x10000 + (hash[off
        + 2] as nat) * 0x100 + (hash[off + 3] as nat)
}

/// The token text: the extracted integer reduced modulo ten to the power of
/// `digits`, rendered in decimal, zero-padded on the left to `digits`
/// characters.
pub open spec fn token_of(binary: nat, digits: nat) -> Seq<char> {
    padded_dec(binary % pow10(digits), digits)
}

/// The counter-based token for this algorithm, secret, counter and width.
pub open spec fn hotp_token(algorithm: Algorithm, secret: Seq<u8>, counter: u64, digits: u32) -> Seq<
    char,
> {
    token_of(dt_binary(hmac_bytes(algorithm, secret, be_bytes(counter))), digits as nat)
}

pub proof fn lemma_dt_binary_bound(hash: Seq<u8>)
    requires
        hash.len() >= 20,
    ensures
        dt_binary(hash) < 0x80000000,
{
    lemma_low_seven_bits_u8();
}

/// Law: a token is exactly `digits` characters wide, leading zeros included,
/// for every positive digit count.
pub proof fn lemma_token_fixed_width(binary: nat, digits: nat)
    requires
        1 <= digits,
    ensures
        token_of(binary, digits).len() == digits,
{
    lemma_pow10_pos(digits);
    let code = binary % pow10(digits);
    lemma_dec_str_len(code, digits);
}

/// Law: a counter-based token is exactly `digits` characters wide for every
/// positive digit count.
pub proof fn lemma_hotp_token_fixed_width(
    algorithm: Algorithm,
    secret: Seq<u8>,
    counter: u64,
    digits: u32,
)
    requires
        1 <= digits,
    ensures
        hotp_token(algorithm, secret, counter, digits).len() == digits,
{
    lemma_token_fixed_width(
        dt_binary(hmac_bytes(algorithm, secret, be_bytes(counter))),
        digits as nat,
    );
}

/// Ten to the power `e`, for small exponents.
fn pow10_u64_small(e: u32) -> (r: u64)
    requires
        e < 10,
    ensures
        r as nat == pow10(e as nat),
        r >= 1,
{
    let mut i: u32 = 0;
    let mut acc: u64 = 1;
    while i < e
        invariant
            i <= e,
            e < 10,
            acc as nat == pow10(i as nat),
            acc <= 1000000000,
        decreases e - i,
    {
        proof {
            lemma_pow10_mono((i + 1) as nat, 9);
            assert(pow10(9) == 1000000000) by {
                reveal_with_fuel(pow10, 10);
            }
        }
        acc = acc * 10;
        i += 1;
    }
    proof {
        lemma_pow10_pos(e as nat);
    }
    acc
}

/// Generates the counter-based token: the HMAC digest of the big-endian
/// counter is dynamically truncated to a 31-bit integer, reduced modulo ten
/// to the power of `digits`, and zero-padded to `digits` characters.
pub fn generate_hotp_token(
    algorithm: &Algorithm,
    secret: &[u8],
    counter: u64,
    digits: u32,
) -> (r: Result<String, OTPError>)
    ensures
        r is Ok,
        r matches Ok(t) ==> t@ == hotp_token(*algorithm, secret@, counter, digits),
{
    let message = counter_bytes(counter);
    let hash = match algorithm.digest(secret, message.as_slice()) {
        Ok(h) => h,
        Err(e) => {
            return Err(e);
        },
    };
    let hash_len = hash.len();
    assert(hash_len >= 20);
    proof {
        lemma_low_nibble_u8();
        lemma_low_seven_bits_u8();
    }
    let offset = (hash[hash_len - 1] & 0x0f) as usize;
    let binary: u64 = ((hash[offset] & 0x7f) as u64) * 0x1000000 + (hash[offset + 1] as u64)
        * 0x10000 + (hash[offset + 2] as u64) * 0x100 + (hash[offset + 3] as u64);
    assert(binary as nat == dt_binary(hash@));
    proof {
        lemma_dt_binary_bound(hash@);
    }
    let code: u64 = if digits >= 10 {
        proof {
            assert(pow10(10) == 10000000000) by {
                reveal_with_fuel(pow10, 11);
            }
            lemma_pow10_mono(10, digits as nat);
            vstd::arithmetic::div_mod::lemma_small_mod(binary as nat, pow10(digits as nat));
        }
        binary
    } else {
        binary % pow10_u64_small(digits)
    };
    assert(code as nat == dt_binary(hash@) % pow10(digits as nat));
    Ok(u64_to_padded_string(code, digits as usize))
}

/// Which provisioning scheme a key URI describes.
#[derive(Debug, PartialEq, Eq)]
pub enum KeyUriType {
    HOTP,
    TOTP,
}

/// The parameters of one key URI, consumed by `to_key_uri`. The secret is
/// carried as base32 text, verbatim.
#[derive(Debug)]
pub struct KeyUriOptions {
    pub uri_type: KeyUriType,
    pub secret: String,
    pub counter: Option<u64>,
    pub period: Option<u64>,
    pub algorithm: Option<Algorithm>,
    pub digits: Option<u32>,
    pub account_name: String,
    pub issuer: Option<String>,
}

/// The path segment that names the URI type.
pub open spec fn spec_type_name(t: KeyUriType) -> Seq<char> {
    match t {
        KeyUriType::HOTP => "hotp"@,
        KeyUriType::TOTP => "totp"@,
    }
}

/// The percent-encoded label: the account name, prefixed with the issuer and
/// a colon when an issuer is present.
pub open spec fn spec_label(account_name: Seq<char>, issuer: Option<Seq<char>>) -> Seq<char> {
    match issuer {
        Some(i) => percent_encoded(i) + seq![':'] + percent_encoded(account_name),
        None => percent_encoded(account_name),
    }
}

/// One rendered query parameter.
pub open spec fn spec_param(key: Seq<char>, value: Seq<char>) -> Seq<char> {
    key + seq!['='] + value
}

/// The query parameters of a key URI, in the fixed documented order: secret,
/// then counter (HOTP) or period (TOTP, only when given), then algorithm,
/// digits and issuer, each only when given.
pub open spec fn spec_params(
    uri_type: KeyUriType,
    secret: Seq<char>,
    counter: Option<u64>,
    period: Option<u64>,
    algorithm: Option<Algorithm>,
    digits: Option<u32>,
    issuer: Option<Seq<char>>,
) -> Seq<(Seq<char>, Seq<char>)> {
    let ps = seq![("secret"@, secret)];
    let ps = match uri_type {
        KeyUriType::HOTP => match counter {
            Some(c) => ps.push(("counter"@, dec_str(c as nat))),
            None => ps,
        },
        KeyUriType::TOTP => match period {
            Some(p) => ps.push(("period"@, dec_str(p as nat))),
            None => ps,
        },
    };
    let ps = match algorithm {
        Some(a) => ps.push(("algorithm"@, spec_uri_name(a))),
        None => ps,
    };
    let ps = match digits {
        Some(d) => ps.push(("digits"@, dec_str(d as nat))),
        None => ps,
    };
    match issuer {
        Some(i) => ps.push(("issuer"@, percent_encoded(i))),
        None => ps,
    }
}

/// The query string: the parameters joined with '&'.
pub open spec fn spec_query(ps: Seq<(Seq<char>, Seq<char>)>) -> Seq<char>
    decreases ps.len(),
{
    if ps.len() == 0 {
        Seq::empty()
    } else {
        spec_param(ps[0].0, ps[0].1) + spec_query_tail(ps.skip(1))
    }
}

pub open spec fn spec_query_tail(ps: Seq<(Seq<char>, Seq<char>)>) -> Seq<char>
    decreases ps.len(),
{
    if ps.len() == 0 {
        Seq::empty()
    } else {
        seq!['&'] + spec_param(ps[0].0, ps[0].1) + spec_query_tail(ps.skip(1))
    }
}

/// The whole key URI, over the plain values of its parts.
pub open spec fn spec_key_uri(
    uri_type: KeyUriType,
    secret: Seq<char>,
    counter: Option<u64>,
    period: Option<u64>,
    algorithm: Option<Algorithm>,
    digits: Option<u32>,
    account_name: Seq<char>,
    issuer: Option<Seq<char>>,
) -> Seq<char> {
    "otpauth://"@ + spec_type_name(uri_type) + "/"@ + spec_label(account_name, issuer)
        + seq!['?'] + spec_query(
        spec_params(uri_type, secret, counter, period, algorithm, digits, issuer),
    )
}

/// The issuer's text, when one is present.
pub open spec fn spec_issuer_view(issuer: Option<String>) -> Option<Seq<char>> {
    match issuer {
        Some(i) => Some(i@),
        None => None,
    }
}

/// The key URI that a set of options describes.
pub open spec fn spec_key_uri_of(options: KeyUriOptions) -> Seq<char> {
    spec_key_uri(
        options.uri_type,
        options.secret@,
        options.counter,
        options.period,
        options.algorithm,
        options.digits,
        options.account_name@,
        spec_issuer_view(options.issuer),
    )
}

proof fn lemma_query_tail_push(ps: Seq<(Seq<char>, Seq<char>)>, p: (Seq<char>, Seq<char>))
    ensures
        spec_query_tail(ps.push(p)) == spec_query_tail(ps) + (seq!['&'] + spec_param(p.0, p.1)),
    decreases ps.len(),
{
    if ps.len() == 0 {
        reveal_with_fuel(spec_query_tail, 2);
        assert(ps.push(p) =~= seq![p]);
        assert(ps.push(p).skip(1) =~= Seq::<(Seq<char>, Seq<char>)>::empty());
        assert(spec_query_tail(ps.push(p)) =~= spec_query_tail(ps) + (seq!['&'] + spec_param(
            p.0,
            p.1,
        )));
    } else {
        let rest = ps.skip(1);
        assert(ps.push(p).skip(1) =~= rest.push(p));
        assert(ps.push(p)[0] == ps[0]);
        lemma_query_tail_push(rest, p);
        assert(spec_query_tail(ps.push(p)) == seq!['&'] + spec_param(ps[0].0, ps[0].1)
            + (spec_query_tail(rest) + (seq!['&'] + spec_param(p.0, p.1))));
        assert(seq!['&'] + spec_param(ps[0].0, ps[0].1) + (spec_query_tail(rest) + (seq!['&']
            + spec_param(p.0, p.1))) =~= (seq!['&'] + spec_param(ps[0].0, ps[0].1)
            + spec_query_tail(rest)) + (seq!['&'] + spec_param(p.0, p.1)));
    }
}

proof fn lemma_query_push(ps: Seq<(Seq<char>, Seq<char>)>, p: (Seq<char>, Seq<char>))
    requires
        ps.len() >= 1,
    ensures
        spec_query(ps.push(p)) == spec_query(ps) + (seq!['&'] + spec_param(p.0, p.1)),
{
    let rest = ps.skip(1);
    assert(ps.push(p).skip(1) =~= rest.push(p));
    assert(ps.push(p)[0] == ps[0]);
    lemma_query_tail_push(rest, p);
    assert(spec_query(ps.push(p)) == spec_param(ps[0].0, ps[0].1) + (spec_query_tail(rest) + (
    seq!['&'] + spec_param(p.0, p.1))));
    assert(spec_param(ps[0].0, ps[0].1) + (spec_query_tail(rest) + (seq!['&'] + spec_param(
        p.0,
        p.1,
    ))) =~= (spec_param(ps[0].0, ps[0].1) + spec_query_tail(rest)) + (seq!['&'] + spec_param(
        p.0,
        p.1,
    )));
}
/// Appends one `&key=value` pair to a query string that already holds at
/// least one parameter.
fn append_param(
    query: &mut String,
    prefix: &str,
    value: &str,
    Ghost(key): Ghost<Seq<char>>,
    Ghost(ps): Ghost<Seq<(Seq<char>, Seq<char>)>>,
)
    requires
        old(query)@ == spec_query(ps),
        ps.len() >= 1,
        prefix@ == seq!['&'] + key + seq!['='],
    ensures
        final(query)@ == spec_query(ps.push((key, value@))),
{
    query.append(prefix);
    query.append(value);
    proof {
        lemma_query_push(ps, (key, value@));
        assert(query@ =~= spec_query(ps.push((key, value@))));
    }
}

/// Serializes the options as an `otpauth://` URI. A HOTP request must carry
/// a counter; everything else optional is rendered only when present.
#[verifier::rlimit(50)]
pub fn to_key_uri(options: KeyUriOptions) -> (r: Result<String, OTPError>)
    ensures
        r is Err <==> (options.uri_type is HOTP && options.counter is None),
        r matches Err(e) ==> e matches OTPError::ToKeyUriError(m) && m@
            == "counter to be a number when options.type is 'hotp'."@,
        r matches Ok(u) ==> u@ == spec_key_uri_of(options),
{
    let mut query = String::from_str("secret=");
    query.append(options.secret.as_str());
    let ghost mut ps: Seq<(Seq<char>, Seq<char>)> = seq![("secret"@, options.secret@)];
    proof {
        reveal_strlit("secret=");
        reveal_strlit("secret");
        assert(ps.skip(1) =~= Seq::<(Seq<char>, Seq<char>)>::empty());
        assert(query@ =~= spec_query(ps));
    }
    let key_uri_type: &str = match &options.uri_type {
        KeyUriType::HOTP => {
            let counter = match options.counter {
                Some(c) => c,
                None => {
                    return Err(
                        OTPError::ToKeyUriError(
                            String::from_str(
                                "counter to be a number when options.type is 'hotp'.",
                            ),
                        ),
                    );
                },
            };
            proof {
                reveal_strlit("&counter=");
                reveal_strlit("counter");
                assert("&counter="@ =~= seq!['&'] + "counter"@ + seq!['=']);
            }
            let counter_text = u64_to_string(counter);
            append_param(
                &mut query,
                "&counter=",
                counter_text.as_str(),
                Ghost("counter"@),
                Ghost(ps),
            );
            proof {
                ps = ps.push(("counter"@, dec_str(counter as nat)));
            }
            "hotp"
        },
        KeyUriType::TOTP => {
            match options.period {
                Some(period) => {
                    proof {
                        reveal_strlit("&period=");
                        reveal_strlit("period");
                        assert("&period="@ =~= seq!['&'] + "period"@ + seq!['=']);
                    }
                    let period_text = u64_to_string(period);
                    append_param(
                        &mut query,
                        "&period=",
                        period_text.as_str(),
                        Ghost("period"@),
                        Ghost(ps),
                    );
                    proof {
                        ps = ps.push(("period"@, dec_str(period as nat)));
                    }
                },
                None => {},
            }
            "totp"
        },
    };
    match &options.algorithm {
        Some(algorithm) => {
            proof {
                reveal_strlit("&algorithm=");
                reveal_strlit("algorithm");
                assert("&algorithm="@ =~= seq!['&'] + "algorithm"@ + seq!['=']);
            }
            let name = algorithm.uri_name();
            append_param(&mut query, "&algorithm=", name.as_str(), Ghost("algorithm"@), Ghost(ps));
            proof {
                ps = ps.push(("algorithm"@, spec_uri_name(*algorithm)));
            }
        },
        None => {},
    }
    match options.digits {
        Some(digits) => {
            proof {
                reveal_strlit("&digits=");
                reveal_strlit("digits");
                assert("&digits="@ =~= seq!['&'] + "digits"@ + seq!['=']);
            }
            let digits_text = u64_to_string(digits as u64);
            append_param(&mut query, "&digits=", digits_text.as_str(), Ghost("digits"@), Ghost(ps));
            proof {
                ps = ps.push(("digits"@, dec_str(digits as nat)));
            }
        },
        None => {},
    }
    let mut label = percent_encode(options.account_name.as_str());
    match &options.issuer {
        Some(issuer) => {
            let issuer_encoded = percent_encode(issuer.as_str());
            proof {
                reveal_strlit("&issuer=");
                reveal_strlit("issuer");
                assert("&issuer="@ =~= seq!['&'] + "issuer"@ + seq!['=']);
            }
            append_param(
                &mut query,
                "&issuer=",
                issuer_encoded.as_str(),
                Ghost("issuer"@),
                Ghost(ps),
            );
            proof {
                ps = ps.push(("issuer"@, percent_encoded(issuer@)));
            }
            let mut prefixed = issuer_encoded;
            prefixed.append(":");
            prefixed.append(label.as_str());
            proof {
                reveal_strlit(":");
            }
            label = prefixed;
        },
        None => {},
    }
    assert(ps =~= spec_params(
        options.uri_type,
        options.secret@,
        options.counter,
        options.period,
        options.algorithm,
        options.digits,
        spec_issuer_view(options.issuer),
    ));
    assert(label@ =~= spec_label(options.account_name@, spec_issuer_view(options.issuer)));
    let mut uri = String::from_str("otpauth://");
    uri.append(key_uri_type);
    uri.append("/");
    uri.append(label.as_str());
    uri.append("?");
    uri.append(query.as_str());
    proof {
        reveal_strlit("/");
        reveal_strlit("?");
        assert(uri@ =~= spec_key_uri_of(options));
    }
    Ok(uri)
}

/// Law: every key URI opens with the otpauth scheme and the path segment of
/// its own type, and its parts stand in the fixed documented order: the query
/// begins with the secret parameter, a HOTP URI carries a counter parameter,
/// and a TOTP URI without an explicit period carries no period parameter.
pub proof fn lemma_key_uri_shape(
    uri_type: KeyUriType,
    secret: Seq<char>,
    counter: Option<u64>,
    period: Option<u64>,
    algorithm: Option<Algorithm>,
    digits: Option<u32>,
    account_name: Seq<char>,
    issuer: Option<Seq<char>>,
)
    ensures
        ({
            let uri = spec_key_uri(
                uri_type,
                secret,
                counter,
                period,
                algorithm,
                digits,
                account_name,
                issuer,
            );
            let ps = spec_params(uri_type, secret, counter, period, algorithm, digits, issuer);
            &&& uri == "otpauth://"@ + spec_type_name(uri_type) + "/"@ + spec_label(
                account_name,
                issuer,
            ) + seq!['?'] + spec_query(ps)
            &&& ps.len() >= 1
            &&& ps[0] == ("secret"@, secret)
            &&& (uri_type is HOTP ==> (counter matches Some(c) ==> ps.contains(
                ("counter"@, dec_str(c as nat)),
            )))
            &&& (uri_type is TOTP && period is None ==> forall|j: int|
                0 <= j < ps.len() ==> (#[trigger] ps[j]).0 != "period"@)
        }),
{
    let ps = spec_params(uri_type, secret, counter, period, algorithm, digits, issuer);
    if uri_type is HOTP && counter is Some {
        let c = counter->Some_0;
        assert(ps[1] == ("counter"@, dec_str(c as nat)));
        assert(ps.contains(("counter"@, dec_str(c as nat))));
    }
    if uri_type is TOTP && period is None {
        assert forall|j: int| 0 <= j < ps.len() implies (#[trigger] ps[j]).0 != "period"@ by {
            reveal_strlit("secret");
            reveal_strlit("period");
            reveal_strlit("algorithm");
            reveal_strlit("digits");
            reveal_strlit("issuer");
            assert(ps[j].0 == "secret"@ || ps[j].0 == "algorithm"@ || ps[j].0 == "digits"@
                || ps[j].0 == "issuer"@);
            assert("secret"@[0] == 's' && "period"@[0] == 'p');
            assert("digits"@[0] == 'd' && "issuer"@[0] == 'i');
            assert("algorithm"@.len() == 9 && "period"@.len() == 6);
            assert("secret"@ != "period"@);
            assert("algorithm"@ != "period"@);
            assert("digits"@ != "period"@);
            assert("issuer"@ != "period"@);
        }
    }
}

} // verus!
