use vstd::prelude::*;

use crate::network::Ipv4;

verus! {

// The parsed command line: which role to run, its endpoint, and which
// handshake to use.  The flag plumbing lives with the caller; the port and
// address texts are parsed and checked here.

/// Everything the operator asked for on the command line.
pub struct CommandArg {
    pub execution_mod: ExecMod,
    pub debug: bool,
}

/// The role the process runs as.
pub enum ExecMod {
    Server(ServerMod),
    Client(ClientMod),
    Certificate(Certificate),
}

/// The server role: where to listen and how to authenticate.
#[derive(Clone, Copy, Debug, PartialEq, Eq, Structural)]
pub struct ServerMod {
    pub port: u16,
    pub localhost: bool,
    pub password: bool,
}

/// The client role: whom to dial and how to authenticate.
#[derive(Clone, Copy, Debug, PartialEq, Eq, Structural)]
pub struct ClientMod {
    pub address: Ipv4,
    pub port: u16,
    pub password: bool,
}

/// The certificate-management role.
#[derive(Debug)]
pub struct Certificate {
    pub action: CertificateActions,
}

#[derive(Debug)]
pub enum CertificateActions {
    New,
    See(CertificateToSee),
    Delete,
}

#[derive(Debug)]
pub struct CertificateToSee {
    pub file_path: String,
}

/// Whether a character is a decimal digit.
pub open spec fn is_digit(c: char) -> bool {
    48 <= c as int <= 57
}

/// The value of a decimal digit character.
pub open spec fn digit_val(c: char) -> int {
    c as int - 48
}

/// Whether every character of a text is a decimal digit.
pub open spec fn all_digits(s: Seq<char>) -> bool {
    forall|i: int| 0 <= i < s.len() ==> is_digit(s[i])
}

/// The number a text of decimal digits denotes.
pub open spec fn decimal_val(s: Seq<char>) -> int
    decreases s.len(),
{
    if s.len() == 0 {
        0
    } else {
        decimal_val(s.drop_last()) * 10 + digit_val(s.last())
    }
}

/// A text denoting a number: nonempty and all digits.
pub open spec fn parse_decimal(s: Seq<char>) -> Option<int> {
    if s.len() > 0 && all_digits(s) {
        Some(decimal_val(s))
    } else {
        None
    }
}

/// A digit text denotes a value at least zero.
pub proof fn lemma_decimal_val_nonneg(s: Seq<char>)
    requires
        all_digits(s),
    ensures
        decimal_val(s) >= 0,
    decreases s.len(),
{
    if s.len() > 0 {
        assert(all_digits(s.drop_last()));
        lemma_decimal_val_nonneg(s.drop_last());
    }
}

/// The complaint when a port argument is not a number the machine can hold.
pub open spec fn not_a_port_msg(s: Seq<char>) -> Seq<char> {
    "`"@ + s + "` isn't a port number"@
}

/// The complaint when a port argument is a number outside the valid range.
pub open spec fn out_of_range_msg() -> Seq<char> {
    "port not in range 1-65535"@
}

/// Parses and checks a port argument: the text must denote a number the
/// machine can hold, and the number must lie in the valid port range.
pub fn port_in_range(s: &str) -> (r: Result<u16, String>)
    ensures
        match parse_decimal(s@) {
            Option::None => r matches Err(m) && m@ == not_a_port_msg(s@),
            Option::Some(v) => if v > usize::MAX as int {
                r matches Err(m) && m@ == not_a_port_msg(s@)
            } else if 1 <= v <= 65535 {
                r == Ok::<u16, String>(v as u16)
            } else {
                r matches Err(m) && m@ == out_of_range_msg()
            },
        },
{
    let n = s.unicode_len();
    let mut i: usize = 0;
    let mut acc: u64 = 0;
    let mut over: bool = false;
    if n == 0 {
        return Err(not_a_port_error(s));
    }
    while i < n
        invariant
            n == s@.len(),
            i <= n,
            all_digits(s@.take(i as int)),
            !over ==> acc as int == decimal_val(s@.take(i as int)) && acc <= usize::MAX as u64,
            over ==> decimal_val(s@.take(i as int)) > usize::MAX as int,
        decreases n - i,
    {
        let c = s.get_char(i);
        let u = c as u32;
        if u < 48 || u > 57 {
            proof {
                assert(!is_digit(s@[i as int]));
            }
            return Err(not_a_port_error(s));
        }
        let d = (u - 48) as u64;
        proof {
            assert(s@.take(i as int + 1).drop_last() =~= s@.take(i as int));
            assert(s@.take(i as int + 1).last() == s@[i as int]);
            assert(decimal_val(s@.take(i as int + 1)) == decimal_val(s@.take(i as int)) * 10 + (
            d as int));
            if over {
                lemma_decimal_val_nonneg(s@.take(i as int));
            }
        }
        if !over {
            if acc > (usize::MAX as u64 - d) / 10 {
                proof {
                    assert(acc as int * 10 + d as int > usize::MAX as int) by (nonlinear_arith)
                        requires
                            acc as int > (usize::MAX as int - d as int) / 10,
                            0 <= d as int <= 9,
                            acc as int >= 0,
                    ;
                }
                over = true;
            } else {
                proof {
                    assert(acc as int * 10 + d as int <= usize::MAX as int) by (nonlinear_arith)
                        requires
                            acc as int <= (usize::MAX as int - d as int) / 10,
                            0 <= d as int <= 9,
                            acc as int >= 0,
                    ;
                }
                acc = acc * 10 + d;
            }
        }
        i = i + 1;
    }
    proof {
        assert(s@.take(n as int) =~= s@);
    }
    if over {
        return Err(not_a_port_error(s));
    }
    if acc >= 1 && acc <= 65535 {
        Ok(acc as u16)
    } else {
        proof {
            reveal_strlit("port not in range 1-65535");
        }
        Err("port not in range 1-65535".to_owned())
    }
}

/// The parts of a text between its dots, in order: one part when there is no
/// dot, one more for every dot.
pub open spec fn split_dot(s: Seq<char>) -> Seq<Seq<char>>
    decreases s.len(),
{
    if s.len() == 0 {
        seq![Seq::<char>::empty()]
    } else {
        let rest = split_dot(s.drop_last());
        if s.last() == '.' {
            rest.push(Seq::<char>::empty())
        } else {
            rest.update(rest.len() - 1, rest.last().push(s.last()))
        }
    }
}

/// A valid address octet: one or more digits, no leading zero, value at most
/// 255.
pub open spec fn octet_ok(s: Seq<char>) -> bool {
    s.len() >= 1 && all_digits(s) && (s.len() > 1 ==> s[0] != '0') && decimal_val(s) <= 255
}

/// The address a text denotes: exactly four dot-separated valid octets.
pub open spec fn ipv4_spec(s: Seq<char>) -> Option<Ipv4> {
    let parts = split_dot(s);
    if parts.len() == 4 && octet_ok(parts[0]) && octet_ok(parts[1]) && octet_ok(parts[2])
        && octet_ok(parts[3]) {
        Some(
            Ipv4 {
                o0: decimal_val(parts[0]) as u8,
                o1: decimal_val(parts[1]) as u8,
                o2: decimal_val(parts[2]) as u8,
                o3: decimal_val(parts[3]) as u8,
            },
        )
    } else {
        None
    }
}

/// The complaint when a client's target argument is not an address.
pub open spec fn bad_address_msg() -> Seq<char> {
    "Ip address not valid"@
}

/// Whether the first `k` parts of a split are all valid octets.
pub open spec fn parts_ok_upto(parts: Seq<Seq<char>>, k: int) -> bool
    decreases k,
{
    if k <= 0 {
        true
    } else {
        parts_ok_upto(parts, k - 1) && octet_ok(parts[k - 1])
    }
}

/// Validity of the first `k` parts depends on those parts alone.
pub proof fn lemma_parts_ok_congruence(a: Seq<Seq<char>>, b: Seq<Seq<char>>, k: int)
    requires
        forall|j: int| 0 <= j < k ==> a[j] == b[j],
    ensures
        parts_ok_upto(a, k) == parts_ok_upto(b, k),
    decreases k,
{
    if k > 0 {
        lemma_parts_ok_congruence(a, b, k - 1);
    }
}

/// The first `k` parts are all valid exactly when each of them is.
pub proof fn lemma_parts_ok_forall(parts: Seq<Seq<char>>, k: int)
    ensures
        parts_ok_upto(parts, k) <==> (forall|j: int| 0 <= j < k ==> octet_ok(parts[j])),
    decreases k,
{
    if k > 0 {
        lemma_parts_ok_forall(parts, k - 1);
    }
}

/// Parses and checks a client's target argument: four dot-separated decimal
/// octets denote an address, anything else is rejected.
pub fn check_id_address(addres: &str) -> (r: Result<Ipv4, String>)
    ensures
        match ipv4_spec(addres@) {
            Option::Some(a) => r == Ok::<Ipv4, String>(a),
            Option::None => r matches Err(m) && m@ == bad_address_msg(),
        },
{
    let n = addres.unicode_len();
    let mut i: usize = 0;
    let mut done: usize = 0;
    let mut octs: Vec<u8> = Vec::new();
    let mut prev_ok: bool = true;
    let mut cur_len: usize = 0;
    let mut cur_digits: bool = true;
    let mut cur_first_zero: bool = false;
    let mut cur_big: bool = false;
    let mut cur_val: u16 = 0;
    proof {
        assert(addres@.take(0) =~= Seq::<char>::empty());
    }
    while i < n
        invariant
            n == addres@.len(),
            i <= n,
            done <= i,
            cur_len <= i,
            split_dot(addres@.take(i as int)).len() == done + 1,
            prev_ok == parts_ok_upto(split_dot(addres@.take(i as int)), done as int),
            octs@.len() == (if done < 4 {
                done as int
            } else {
                4
            }),
            prev_ok ==> (forall|j: int|
                0 <= j < octs@.len() ==> octs@[j] as int == decimal_val(
                    split_dot(addres@.take(i as int))[j],
                )),
            cur_len == split_dot(addres@.take(i as int)).last().len(),
            cur_digits <==> all_digits(split_dot(addres@.take(i as int)).last()),
            cur_first_zero <==> (split_dot(addres@.take(i as int)).last().len() > 0 && split_dot(
                addres@.take(i as int),
            ).last()[0] == '0'),
            cur_digits ==> (cur_big <==> decimal_val(split_dot(addres@.take(i as int)).last())
                > 255),
            cur_digits && !cur_big ==> cur_val as int == decimal_val(
                split_dot(addres@.take(i as int)).last(),
            ) && cur_val <= 255,
        decreases n - i,
    {
        let ghost parts = split_dot(addres@.take(i as int));
        let c = addres.get_char(i);
        let u = c as u32;
        proof {
            assert(addres@.take(i as int + 1).drop_last() =~= addres@.take(i as int));
            assert(addres@.take(i as int + 1).last() == c);
        }
        let ghost parts_next = split_dot(addres@.take(i as int + 1));
        if u == 46 {
            let ok = cur_len >= 1 && cur_digits && (cur_len == 1 || !cur_first_zero) && !cur_big;
            proof {
                if cur_digits {
                    lemma_decimal_val_nonneg(parts.last());
                }
                assert(ok == octet_ok(parts.last()));
                assert(parts_next =~= parts.push(Seq::<char>::empty()));
            }
            if done < 4 {
                if ok {
                    octs.push(cur_val as u8);
                } else {
                    octs.push(0);
                }
            }
            prev_ok = prev_ok && ok;
            done = done + 1;
            cur_len = 0;
            cur_digits = true;
            cur_first_zero = false;
            cur_big = false;
            cur_val = 0;
            proof {
                let pn = parts_next;
                assert(pn.last() =~= Seq::<char>::empty());
                lemma_parts_ok_congruence(pn, parts, done - 1);
                assert(pn[done - 1] == parts.last());
                assert(parts_ok_upto(pn, done as int) == (parts_ok_upto(parts, done - 1)
                    && octet_ok(parts.last())));
            }
        } else {
            let is_d = u >= 48 && u <= 57;
            proof {
                let cur = parts.last();
                let cur2 = cur.push(c);
                assert(parts_next =~= parts.update(parts.len() - 1, cur2));
                assert(parts_next.last() == cur2);
                assert(cur2.drop_last() =~= cur);
                assert(cur2.last() == c);
                assert(decimal_val(cur2) == decimal_val(cur) * 10 + digit_val(c));
                assert(all_digits(cur2) <==> (all_digits(cur) && is_digit(c)));
                if all_digits(cur) {
                    lemma_decimal_val_nonneg(cur);
                }
                lemma_parts_ok_congruence(parts_next, parts, done as int);
            }
            if cur_len == 0 {
                cur_first_zero = u == 48;
            }
            if cur_digits && is_d {
                let d = (u - 48) as u16;
                if cur_big || cur_val * 10 + d > 255 {
                    cur_big = true;
                } else {
                    cur_val = cur_val * 10 + d;
                }
            }
            cur_digits = cur_digits && is_d;
            cur_len = cur_len + 1;
        }
        i = i + 1;
    }
    proof {
        assert(addres@.take(n as int) =~= addres@);
        if cur_digits {
            lemma_decimal_val_nonneg(split_dot(addres@).last());
        }
    }
    let ok = cur_len >= 1 && cur_digits && (cur_len == 1 || !cur_first_zero) && !cur_big;
    proof {
        let parts = split_dot(addres@);
        assert(ok == octet_ok(parts.last()));
        lemma_parts_ok_forall(parts, done as int);
    }
    if done == 3 && prev_ok && ok {
        let a = Ipv4 { o0: octs[0], o1: octs[1], o2: octs[2], o3: cur_val as u8 };
        proof {
            let parts = split_dot(addres@);
            assert(parts[3] == parts.last());
            assert(octet_ok(parts[3]));
            assert(forall|j: int| 0 <= j < 3 ==> octet_ok(parts[j]));
        }
        Ok(a)
    } else {
        proof {
            let parts = split_dot(addres@);
            if ipv4_spec(addres@) is Some {
                assert(parts.len() == 4);
                assert(done == 3);
                assert(octet_ok(parts[3]) && parts[3] == parts.last());
                assert(ok);
                assert(forall|j: int| 0 <= j < 3 ==> octet_ok(parts[j]));
                assert(prev_ok);
                assert(false);
            }
        }
        proof {
            reveal_strlit("Ip address not valid");
        }
        Err("Ip address not valid".to_owned())
    }
}

/// The complaint for a port argument that denotes no number.
fn not_a_port_error(s: &str) -> (r: String)
    ensures
        r@ == not_a_port_msg(s@),
{
    let m = String::from_str("`").concat(s).concat("` isn't a port number");
    proof {
        assert(m@ =~= not_a_port_msg(s@));
    }
    m
}

} // verus!
