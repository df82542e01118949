use vstd::prelude::*;
use vstd::string::StrSliceExecFns;
use vstd::string::StringExecFns;
use crate::decimal::{dec_int, dec_digits, parse_int_at, format_i64, parse_i64_at, is_digit,
    lemma_dec_digits_shape, lemma_dec_digits_val, lemma_dec_digits_len, lemma_digit_run_end_is,
    pow10};
use crate::escape::{escape_seq, parse_str_at, escape_string, parse_string_at,
    lemma_parse_escaped};
use crate::session::{UserProfile, UserProfileSnap};

verus! {

/// The durable `token-data` record: a JSON object with the session's expiry
/// and the user profile, written and read in one fixed field order.

/// Whether the literal `lit` stands in `s` at position `i`; on success, the
/// position just past it.
pub open spec fn match_lit(s: Seq<char>, i: int, lit: Seq<char>) -> Option<int> {
    if 0 <= i && i + lit.len() <= s.len() && s.subrange(i, i + lit.len() as int) == lit {
        Some(i + lit.len() as int)
    } else {
        None
    }
}

/// The record's text for a given expiry and profile.
pub open spec fn encode_record_seq(e: int, u: UserProfileSnap) -> Seq<char> {
    "{\"expires_at\":"@ + dec_int(e)
        + ",\"user\":{\"id\":\""@ + escape_seq(u.id) + "\""@
        + ",\"email\":\""@ + escape_seq(u.email) + "\""@
        + ",\"tier\":\""@ + escape_seq(u.tier) + "\""@
        + ",\"tokens_remaining\":"@ + dec_int(u.tokens_remaining)
        + ",\"daily_limit\":"@ + dec_int(u.daily_limit)
        + "}}"@
}

/// What reading a record text yields: the expiry and the profile, or nothing
/// when the text does not have exactly the record's shape.
pub open spec fn decode_record_seq(s: Seq<char>) -> Option<(int, UserProfileSnap)> {
    match match_lit(s, 0, "{\"expires_at\":"@) {
        None => None,
        Some(i1) => match parse_int_at(s, i1) {
            None => None,
            Some((e, i2)) => match match_lit(s, i2, ",\"user\":{\"id\":\""@) {
                None => None,
                Some(i3) => match parse_str_at(s, i3) {
                    None => None,
                    Some((id, i4)) => match match_lit(s, i4, ",\"email\":\""@) {
                        None => None,
                        Some(i5) => match parse_str_at(s, i5) {
                            None => None,
                            Some((email, i6)) => match match_lit(s, i6, ",\"tier\":\""@) {
                                None => None,
                                Some(i7) => match parse_str_at(s, i7) {
                                    None => None,
                                    Some((tier, i8)) => match match_lit(s, i8, ",\"tokens_remaining\":"@) {
                                        None => None,
                                        Some(i9) => match parse_int_at(s, i9) {
                                            None => None,
                                            Some((tr, i10)) => match match_lit(s, i10, ",\"daily_limit\":"@) {
                                                None => None,
                                                Some(i11) => match parse_int_at(s, i11) {
                                                    None => None,
                                                    Some((dl, i12)) => match match_lit(s, i12, "}}"@) {
                                                        None => None,
                                                        Some(i13) => if i13 == s.len() {
                                                            Some((e, UserProfileSnap {
                                                                id: id,
                                                                email: email,
                                                                tier: tier,
                                                                tokens_remaining: tr,
                                                                daily_limit: dl,
                                                            }))
                                                        } else {
                                                            None
                                                        },
                                                    },
                                                },
                                            },
                                        },
                                    },
                                },
                            },
                        },
                    },
                },
            },
        },
    }
}

/// Writes the record for `expires_at` and `user`.
pub fn encode_record(expires_at: i64, user: &UserProfile) -> (r: String)
    ensures
        r@ == encode_record_seq(expires_at as int, user@),
{
    let mut out = String::from_str("{\"expires_at\":");
    let num = format_i64(expires_at);
    out.append(num.as_str());
    out.append(",\"user\":{\"id\":\"");
    let eid = escape_string(user.id.as_str());
    out.append(eid.as_str());
    out.append("\"");
    out.append(",\"email\":\"");
    let eemail = escape_string(user.email.as_str());
    out.append(eemail.as_str());
    out.append("\"");
    out.append(",\"tier\":\"");
    let etier = escape_string(user.tier.as_str());
    out.append(etier.as_str());
    out.append("\"");
    out.append(",\"tokens_remaining\":");
    let ntr = format_i64(user.tokens_remaining);
    out.append(ntr.as_str());
    out.append(",\"daily_limit\":");
    let ndl = format_i64(user.daily_limit);
    out.append(ndl.as_str());
    out.append("}}");
    out
}

/// Checks that `lit` stands in `s` at `i`, exactly as `match_lit` describes.
fn expect_lit(s: &str, i: usize, lit: &str) -> (r: Option<usize>)
    requires
        i <= s@.len(),
    ensures
        r matches Some(j) ==> match_lit(s@, i as int, lit@) == Some(j as int) && i <= j <= s@.len(),
        r is None ==> match_lit(s@, i as int, lit@) is None,
{
    let slen = s.unicode_len();
    let llen = lit.unicode_len();
    if slen - i < llen {
        return None;
    }
    let mut k: usize = 0;
    while k < llen
        invariant
            k <= llen,
            i + llen <= slen,
            slen == s@.len(),
            llen == lit@.len(),
            forall|m: int| 0 <= m < k ==> s@[i + m] == #[trigger] lit@[m],
        decreases llen - k,
    {
        if s.get_char(i + k) != lit.get_char(k) {
            proof {
                assert(s@.subrange(i as int, i as int + llen as int) != lit@) by {
                    if s@.subrange(i as int, i as int + llen as int) == lit@ {
                        assert(s@.subrange(i as int, i as int + llen as int)[k as int]
                            == s@[i + k]);
                    }
                }
            }
            return None;
        }
        k = k + 1;
    }
    proof {
        assert(s@.subrange(i as int, i as int + llen as int) =~= lit@);
    }
    Some(i + llen)
}

/// Reads a record text back, exactly as `decode_record_seq` describes.
pub fn decode_record(s: &str) -> (r: Option<(i64, UserProfile)>)
    ensures
        r matches Some(p) ==> decode_record_seq(s@) == Some((p.0 as int, p.1@)),
        r is None ==> decode_record_seq(s@) is None,
{
    let i1 = match expect_lit(s, 0, "{\"expires_at\":") {
        Some(i) => i,
        None => { return None; },
    };
    let (e, i2) = match parse_i64_at(s, i1) {
        Some(p) => p,
        None => { return None; },
    };
    let i3 = match expect_lit(s, i2, ",\"user\":{\"id\":\"") {
        Some(i) => i,
        None => { return None; },
    };
    let (id, i4) = match parse_string_at(s, i3) {
        Some(p) => p,
        None => { return None; },
    };
    let i5 = match expect_lit(s, i4, ",\"email\":\"") {
        Some(i) => i,
        None => { return None; },
    };
    let (email, i6) = match parse_string_at(s, i5) {
        Some(p) => p,
        None => { return None; },
    };
    let i7 = match expect_lit(s, i6, ",\"tier\":\"") {
        Some(i) => i,
        None => { return None; },
    };
    let (tier, i8) = match parse_string_at(s, i7) {
        Some(p) => p,
        None => { return None; },
    };
    let i9 = match expect_lit(s, i8, ",\"tokens_remaining\":") {
        Some(i) => i,
        None => { return None; },
    };
    let (tr, i10) = match parse_i64_at(s, i9) {
        Some(p) => p,
        None => { return None; },
    };
    let i11 = match expect_lit(s, i10, ",\"daily_limit\":") {
        Some(i) => i,
        None => { return None; },
    };
    let (dl, i12) = match parse_i64_at(s, i11) {
        Some(p) => p,
        None => { return None; },
    };
    let i13 = match expect_lit(s, i12, "}}") {
        Some(i) => i,
        None => { return None; },
    };
    if i13 != s.unicode_len() {
        return None;
    }
    Some((e, UserProfile {
        id,
        email,
        tier,
        tokens_remaining: tr,
        daily_limit: dl,
    }))
}

/// A decimal rendering placed inside a longer text parses back to its value
/// when the character after it is not a digit.
proof fn lemma_parse_int_of_dec(s: Seq<char>, i: int, n: int)
    requires
        0 <= i,
        -0x8000_0000_0000_0000 <= n < 0x8000_0000_0000_0000,
        i + dec_int(n).len() <= s.len(),
        s.subrange(i, i + dec_int(n).len() as int) == dec_int(n),
        i + dec_int(n).len() == s.len() || !is_digit(s[i + dec_int(n).len()]),
    ensures
        parse_int_at(s, i) == Some((n, i + dec_int(n).len())),
{
    let mag: nat = if n < 0 { (-n) as nat } else { n as nat };
    let d = dec_digits(mag);
    lemma_dec_digits_shape(mag);
    lemma_dec_digits_val(mag);
    reveal_with_fuel(pow10, 21);
    assert(pow10(19) == 10_000_000_000_000_000_000nat);
    lemma_dec_digits_len(mag, 19);
    let t = dec_int(n);
    assert forall|k: int| 0 <= k < t.len() implies s[i + k] == #[trigger] t[k] by {
        assert(s.subrange(i, i + t.len() as int)[k] == s[i + k]);
    }
    let j0 = if n < 0 { i + 1 } else { i };
    if n < 0 {
        assert(t == seq!['-'] + d);
        assert(t[0] == '-');
        assert(s[i] == '-');
    } else {
        assert(t == d);
        assert(is_digit(t[0]));
        assert(s[i] == t[0]);
        assert(s[i] != '-');
    }
    assert forall|k: int| j0 <= k < j0 + d.len() implies is_digit(#[trigger] s[k]) by {
        assert(s[k] == t[k - i]);
        assert(t[k - i] == d[k - j0]);
        assert(is_digit(d[k - j0]));
    }
    lemma_digit_run_end_is(s, j0, j0 + d.len());
    assert(s.subrange(j0, j0 + d.len() as int) =~= d) by {
        assert forall|k: int| 0 <= k < d.len()
            implies s.subrange(j0, j0 + d.len() as int)[k] == #[trigger] d[k] by {
            assert(s.subrange(j0, j0 + d.len() as int)[k] == s[j0 + k]);
            assert(s[j0 + k] == t[j0 + k - i]);
            assert(t[j0 + k - i] == d[k]);
        }
    }
    if d.len() > 1 {
        assert(mag >= 10) by {
            if mag < 10 {
                assert(d.len() == 1);
            }
        }
        assert(s[j0] == d[0]);
        assert(s[j0] != '0');
    }
}

/// Round trip: reading back a written record yields exactly what was written.
///
/// Holds for every expiry and profile whose counters are `i64` values, with
/// arbitrary text in the identity fields.
#[verifier::rlimit(100)]
#[verifier::spinoff_prover]
pub proof fn lemma_record_round_trip(e: int, u: UserProfileSnap)
    requires
        -0x8000_0000_0000_0000 <= e < 0x8000_0000_0000_0000,
        -0x8000_0000_0000_0000 <= u.tokens_remaining < 0x8000_0000_0000_0000,
        -0x8000_0000_0000_0000 <= u.daily_limit < 0x8000_0000_0000_0000,
    ensures
        decode_record_seq(encode_record_seq(e, u)) == Some((e, u)),
{
    let s = encode_record_seq(e, u);
    let l1 = "{\"expires_at\":"@;
    let l2 = ",\"user\":{\"id\":\""@;
    let q = "\""@;
    let l3 = ",\"email\":\""@;
    let l4 = ",\"tier\":\""@;
    let l5 = ",\"tokens_remaining\":"@;
    let l6 = ",\"daily_limit\":"@;
    let l7 = "}}"@;
    reveal_strlit("{\"expires_at\":");
    reveal_strlit(",\"user\":{\"id\":\"");
    reveal_strlit("\"");
    reveal_strlit(",\"email\":\"");
    reveal_strlit(",\"tier\":\"");
    reveal_strlit(",\"tokens_remaining\":");
    reveal_strlit(",\"daily_limit\":");
    reveal_strlit("}}");
    let d1 = dec_int(e);
    let x1 = escape_seq(u.id);
    let x2 = escape_seq(u.email);
    let x3 = escape_seq(u.tier);
    let d2 = dec_int(u.tokens_remaining);
    let d3 = dec_int(u.daily_limit);
    let i1 = l1.len() as int;
    let i2 = i1 + d1.len();
    let i3 = i2 + l2.len();
    let i4 = i3 + x1.len() + 1;
    let i5 = i4 + l3.len();
    let i6 = i5 + x2.len() + 1;
    let i7 = i6 + l4.len();
    let i8 = i7 + x3.len() + 1;
    let i9 = i8 + l5.len();
    let i10 = i9 + d2.len();
    let i11 = i10 + l6.len();
    let i12 = i11 + d3.len();
    let i13 = i12 + l7.len();
    assert(s.len() == i13);
    assert(s.subrange(0, i1) =~= l1);
    assert(match_lit(s, 0, l1) == Some(i1));
    assert(s.subrange(i1, i2) =~= d1);
    assert(!is_digit(s[i2])) by {
        assert(s[i2] == l2[0]);
    }
    lemma_parse_int_of_dec(s, i1, e);
    assert(parse_int_at(s, i1) == Some((e, i2)));
    assert(s.subrange(i2, i3) =~= l2);
    assert(match_lit(s, i2, l2) == Some(i3));
    assert(s.subrange(i3, i3 + x1.len() as int) =~= x1);
    assert(s[i3 + x1.len()] == q[0]);
    lemma_parse_escaped(s, i3, u.id);
    assert(parse_str_at(s, i3) == Some((u.id, i4)));
    assert(s.subrange(i4, i5) =~= l3);
    assert(match_lit(s, i4, l3) == Some(i5));
    assert(s.subrange(i5, i5 + x2.len() as int) =~= x2);
    assert(s[i5 + x2.len()] == q[0]);
    lemma_parse_escaped(s, i5, u.email);
    assert(parse_str_at(s, i5) == Some((u.email, i6)));
    assert(s.subrange(i6, i7) =~= l4);
    assert(match_lit(s, i6, l4) == Some(i7));
    assert(s.subrange(i7, i7 + x3.len() as int) =~= x3);
    assert(s[i7 + x3.len()] == q[0]);
    lemma_parse_escaped(s, i7, u.tier);
    assert(parse_str_at(s, i7) == Some((u.tier, i8)));
    assert(s.subrange(i8, i9) =~= l5);
    assert(match_lit(s, i8, l5) == Some(i9));
    assert(s.subrange(i9, i10) =~= d2);
    assert(!is_digit(s[i10])) by {
        assert(s[i10] == l6[0]);
    }
    lemma_parse_int_of_dec(s, i9, u.tokens_remaining);
    assert(parse_int_at(s, i9) == Some((u.tokens_remaining, i10)));
    assert(s.subrange(i10, i11) =~= l6);
    assert(match_lit(s, i10, l6) == Some(i11));
    assert(s.subrange(i11, i12) =~= d3);
    assert(!is_digit(s[i12])) by {
        assert(s[i12] == l7[0]);
    }
    lemma_parse_int_of_dec(s, i11, u.daily_limit);
    assert(parse_int_at(s, i11) == Some((u.daily_limit, i12)));
    assert(s.subrange(i12, i13) =~= l7);
    assert(match_lit(s, i12, l7) == Some(i13));
    assert(decode_record_seq(s) == Some((e, UserProfileSnap {
        id: u.id,
        email: u.email,
        tier: u.tier,
        tokens_remaining: u.tokens_remaining,
        daily_limit: u.daily_limit,
    })));
}

} // verus!
