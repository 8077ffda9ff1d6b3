//! Reading back the JSON text of inclusion conditions.
use vstd::prelude::*;
use vstd::string::{StrSliceExecFns, StringExecFns};
use crate::hex_text::hex_value;
use crate::json::{inclusion_json, inclusion_to_json, join, json_quantity, opt_field, opt_quantity};
use crate::quantity::{
    lemma_pow16_bound, lemma_quantity_digits, lemma_quantity_round_trip, parse_quantity,
    quantity_digits, quantity_text_of,
};
use crate::types::InclusionParams;

verus! {

/// Whether `lit` stands in `s` at `pos`.
fn starts_at(s: &str, pos: usize, lit: &str) -> (r: bool)
    requires
        pos <= s@.len(),
    ensures
        r == (pos + lit@.len() <= s@.len() && s@.subrange(pos as int, pos + lit@.len()) == lit@),
{
    let n = s.unicode_len();
    let m = lit.unicode_len();
    if m > n - pos {
        return false;
    }
    let mut i: usize = 0;
    while i < m
        invariant
            n == s@.len(),
            m == lit@.len(),
            pos + m <= n,
            0 <= i <= m,
            s@.subrange(pos as int, pos + i) == lit@.subrange(0, i as int),
        decreases m - i,
    {
        if s.get_char(pos + i) != lit.get_char(i) {
            assert(s@.subrange(pos as int, pos + m)[i as int] != lit@[i as int]);
            return false;
        }
        assert(s@.subrange(pos as int, pos + i + 1) =~= lit@.subrange(0, i + 1));
        i = i + 1;
    }
    assert(lit@.subrange(0, m as int) =~= lit@);
    true
}

/// The first position at or after `pos` that holds a '"', or the length.
fn quote_end(s: &str, pos: usize) -> (r: usize)
    requires
        pos <= s@.len(),
    ensures
        pos <= r <= s@.len(),
        forall|j: int| pos <= j < r ==> s@[j] != '"',
        r < s@.len() ==> s@[r as int] == '"',
{
    let n = s.unicode_len();
    let mut i = pos;
    while i < n
        invariant
            n == s@.len(),
            pos <= i <= n,
            forall|j: int| pos <= j < i ==> s@[j] != '"',
        decreases n - i,
    {
        if s.get_char(i) == '"' {
            return i;
        }
        i = i + 1;
    }
    i
}

/// Reads a quoted quantity at `pos`; gives the number and the position after it.
fn quoted_quantity(s: &str, pos: usize) -> (r: Option<(u64, usize)>)
    requires
        pos <= s@.len(),
    ensures
        r is Some ==> r->Some_0.1 <= s@.len(),
        forall|n: u64|
            #![trigger json_quantity(n as nat)]
            pos + json_quantity(n as nat).len() <= s@.len() && s@.subrange(
                pos as int,
                pos + json_quantity(n as nat).len(),
            ) == json_quantity(n as nat) ==> r == Some((n, (pos + json_quantity(n as nat).len()) as usize)),
{
    proof {
        reveal_strlit("\"");
    }
    let n = s.unicode_len();
    if !starts_at(s, pos, "\"") {
        proof {
            assert forall|k: u64| pos + json_quantity(k as nat).len() <= s@.len() implies s@.subrange(
                pos as int,
                pos + json_quantity(k as nat).len(),
            ) != json_quantity(k as nat) by {
                let t = json_quantity(k as nat);
                if s@.subrange(pos as int, pos + t.len()) == t {
                    assert(s@.subrange(pos as int, pos + t.len())[0] == t[0]);
                    assert(s@.subrange(pos as int, pos + 1) =~= "\""@);
                }
            }
        }
        return None;
    }
    let q = quote_end(s, pos + 1);
    if q >= n {
        proof {
            assert forall|k: u64| pos + json_quantity(k as nat).len() <= s@.len() implies s@.subrange(
                pos as int,
                pos + json_quantity(k as nat).len(),
            ) != json_quantity(k as nat) by {
                let t = json_quantity(k as nat);
                if s@.subrange(pos as int, pos + t.len()) == t {
                    assert(s@[pos + t.len() - 1] == t[t.len() - 1]);
                }
            }
        }
        return None;
    }
    let text = s.substring_char(pos + 1, q);
    let v = parse_quantity(text);
    proof {
        assert forall|k: u64|
            #![trigger json_quantity(k as nat)]
            pos + json_quantity(k as nat).len() <= s@.len() && s@.subrange(
                pos as int,
                pos + json_quantity(k as nat).len(),
            ) == json_quantity(k as nat) implies v == Some(k) && q + 1 == pos + json_quantity(
            k as nat,
        ).len() by {
            let qt = quantity_text_of(k as nat);
            let t = json_quantity(k as nat);
            lemma_pow16_bound(16);
            lemma_quantity_digits(k as nat, 16);
            lemma_quantity_round_trip(k);
            assert(t =~= seq!['"'] + qt + seq!['"']);
            assert forall|j: int| 0 <= j < qt.len() implies qt[j] != '"' by {
                if j >= 2 {
                    assert(qt[j] == quantity_digits(k as nat)[j - 2]);
                    assert(hex_value(quantity_digits(k as nat)[j - 2]) is Some);
                }
            }
            assert forall|j: int| pos + 1 <= j < pos + 1 + qt.len() implies s@[j] != '"' by {
                assert(s@[j] == t[j - pos]);
            }
            assert(s@[pos + 1 + qt.len()] == t[qt.len() + 1 as int]);
            assert(q == pos + 1 + qt.len());
            assert forall|j: int| 0 <= j < qt.len() implies text@[j] == qt[j] by {
                assert(s@.subrange(pos as int, pos + t.len())[1 + j] == t[1 + j]);
            }
            assert(text@ =~= qt);
        }
    }
    match v {
        None => None,
        Some(x) => {
            proof {
                assert(s@.subrange(q as int, q + 1) =~= "\""@);
            }
            if starts_at(s, q, "\"") {
                Some((x, q + 1))
            } else {
                None
            }
        },
    }
}

/// The JSON text of inclusion conditions, written out piece by piece.
pub proof fn lemma_inclusion_shape(p: InclusionParams)
    ensures
        inclusion_json(p) == "{\"block\":"@ + json_quantity(p.block as nat) + match p.max_block {
            None => "}"@,
            Some(m) => ",\"maxBlock\":"@ + json_quantity(m as nat) + "}"@,
        },
{
    reveal_strlit("{");
    reveal_strlit("}");
    reveal_strlit(",");
    reveal_strlit("\"block\":");
    reveal_strlit("{\"block\":");
    reveal_strlit("\"maxBlock\":");
    reveal_strlit(",\"maxBlock\":");
    let f1 = "\"block\":"@ + json_quantity(p.block as nat);
    let fields = seq![f1] + opt_field("\"maxBlock\":"@, opt_quantity(p.max_block));
    match p.max_block {
        None => {
            assert(fields =~= seq![f1]);
            assert(join(fields) == f1);
            assert(inclusion_json(p) =~= "{\"block\":"@ + json_quantity(p.block as nat) + "}"@);
        },
        Some(m) => {
            let f2 = "\"maxBlock\":"@ + json_quantity(m as nat);
            assert(fields =~= seq![f1, f2]);
            assert(fields.drop_last() =~= seq![f1]);
            assert(join(seq![f1]) == f1);
            assert(join(fields) == f1 + ","@ + f2);
            assert(inclusion_json(p) =~= "{\"block\":"@ + json_quantity(p.block as nat)
                + ",\"maxBlock\":"@ + json_quantity(m as nat) + "}"@);
        },
    }
}

/// Reads inclusion conditions from their JSON text: exactly the texts that
/// `inclusion_to_json` writes are accepted, each giving the value it was written from.
pub fn parse_inclusion(s: &str) -> (r: Option<InclusionParams>)
    ensures
        r is Some ==> inclusion_json(r->Some_0) == s@,
        forall|p: InclusionParams| #![trigger inclusion_json(p)] inclusion_json(p) == s@ ==> r == Some(p),
{
    proof {
        reveal_strlit("{\"block\":");
        reveal_strlit(",\"maxBlock\":");
        reveal_strlit("}");
    }
    let n = s.unicode_len();
    if !starts_at(s, 0, "{\"block\":") {
        proof {
            assert forall|p: InclusionParams| #![trigger inclusion_json(p)] inclusion_json(p) != s@ by {
                lemma_inclusion_shape(p);
                if inclusion_json(p) == s@ {
                    assert(s@.subrange(0, 9) =~= "{\"block\":"@);
                }
            }
        }
        return None;
    }
    let first = quoted_quantity(s, 9);
    proof {
        assert forall|p: InclusionParams| #![trigger inclusion_json(p)] inclusion_json(p) == s@ implies first
            == Some((p.block, (9 + json_quantity(p.block as nat).len()) as usize)) by {
            lemma_inclusion_shape(p);
            let jq = json_quantity(p.block as nat);
            assert(s@.subrange(9, 9 + jq.len() as int) =~= jq);
        }
    }
    let (block, pos) = match first {
        None => return None,
        Some(v) => v,
    };
    let cand = if pos < n && s.get_char(pos) == '}' {
        proof {
            assert forall|p: InclusionParams| #![trigger inclusion_json(p)] inclusion_json(p) == s@ implies p == (InclusionParams { block, max_block: None }) by {
                lemma_inclusion_shape(p);
                let jq = json_quantity(p.block as nat);
                assert(s@[9 + jq.len() as int] == s@[pos as int]);
                if p.max_block is Some {
                    assert(s@[pos as int] == ',');
                }
            }
        }
        InclusionParams { block, max_block: None }
    } else if pos <= n && starts_at(s, pos, ",\"maxBlock\":") {
        let second = quoted_quantity(s, pos + 12);
        proof {
            assert forall|p: InclusionParams| #![trigger inclusion_json(p)] inclusion_json(p) == s@ implies p.max_block is Some
                && second == Some(
                (p.max_block->Some_0, (pos + 12 + json_quantity(p.max_block->Some_0 as nat).len()) as usize),
            ) by {
                lemma_inclusion_shape(p);
                if p.max_block is None {
                    assert(s@[pos as int] == '}');
                } else {
                    let jm = json_quantity(p.max_block->Some_0 as nat);
                    assert(s@.subrange(pos + 12, pos + 12 + jm.len()) =~= jm);
                }
            }
        }
        match second {
            None => return None,
            Some((m, _)) => InclusionParams { block, max_block: Some(m) },
        }
    } else {
        proof {
            assert forall|p: InclusionParams| #![trigger inclusion_json(p)] inclusion_json(p) != s@ by {
                lemma_inclusion_shape(p);
                if inclusion_json(p) == s@ {
                    if p.max_block is None {
                        assert(s@[pos as int] == '}');
                    } else {
                        assert(s@.subrange(pos as int, pos + 12) =~= ",\"maxBlock\":"@);
                    }
                }
            }
        }
        return None;
    };
    let enc = inclusion_to_json(&cand);
    let text = String::from_str(s);
    if enc == text {
        Some(cand)
    } else {
        None
    }
}

} // verus!
