//! JSON text of the `mev_sendBundle` parameter: optional fields that are
//! absent are left out, body entries keep their order.
use vstd::prelude::*;
use vstd::string::{StrSliceExecFns, StringExecFns};
use crate::hex_text::{encode_hex, hex_digit, hex_of};
use crate::quantity::{push_char, quantity_text, quantity_text_of};
use crate::types::{
    Bundle, BundleTx, HintPreference, InclusionParams, PrivacyParams, Refund, RefundConfig,
    ValidityParams,
};

verus! {

/// The views of a sequence of strings.
pub open spec fn views(v: Seq<String>) -> Seq<Seq<char>> {
    v.map_values(|s: String| s@)
}

/// Parts separated by commas.
pub open spec fn join(parts: Seq<Seq<char>>) -> Seq<char>
    decreases parts.len(),
{
    if parts.len() == 0 {
        Seq::empty()
    } else if parts.len() == 1 {
        parts[0]
    } else {
        join(parts.drop_last()) + ","@ + parts.last()
    }
}

/// A field that is written only when present.
pub open spec fn opt_field(name: Seq<char>, value: Option<Seq<char>>) -> Seq<Seq<char>> {
    match value {
        Some(v) => seq![name + v],
        None => Seq::empty(),
    }
}

/// The escaped form of one character inside a JSON string.
pub open spec fn escape_char(c: char) -> Seq<char> {
    if c == '"' {
        seq!['\\', '"']
    } else if c == '\\' {
        seq!['\\', '\\']
    } else if (c as u32) < 0x20 {
        seq!['\\', 'u', '0', '0', hex_digit(c as int / 16), hex_digit(c as int % 16)]
    } else {
        seq![c]
    }
}

pub open spec fn escaped(s: Seq<char>) -> Seq<char>
    decreases s.len(),
{
    if s.len() == 0 {
        Seq::empty()
    } else {
        escaped(s.drop_last()) + escape_char(s.last())
    }
}

/// A JSON string literal.
pub open spec fn json_string(s: Seq<char>) -> Seq<char> {
    seq!['"'] + escaped(s) + seq!['"']
}

/// Decimal digits of a number, without leading zeros.
pub open spec fn decimal_of(n: nat) -> Seq<char>
    decreases n,
{
    if n < 10 {
        seq![(n + 48) as char]
    } else {
        decimal_of(n / 10).push(((n % 10) + 48) as char)
    }
}

/// Bytes as a quoted "0x"-prefixed hex string.
pub open spec fn json_data(b: Seq<u8>) -> Seq<char> {
    "\"0x"@ + hex_of(b) + "\""@
}

pub open spec fn json_bool(b: bool) -> Seq<char> {
    if b {
        "true"@
    } else {
        "false"@
    }
}

/// Appends one part to a list of parts.
fn push_string(v: &mut Vec<String>, s: String)
    ensures
        views(final(v)@) == views(old(v)@).push(s@),
{
    v.push(s);
    proof {
        assert(views(final(v)@) =~= views(old(v)@).push(s@));
    }
}

/// Writes `open`, the parts separated by commas, and `close`.
fn join_strings(parts: &Vec<String>, open: &str, close: &str) -> (r: String)
    ensures
        r@ == open@ + join(views(parts@)) + close@,
{
    let mut r = String::from_str(open);
    let ghost vs = views(parts@);
    let mut i: usize = 0;
    while i < parts.len()
        invariant
            0 <= i <= parts@.len(),
            vs == views(parts@),
            r@ == open@ + join(vs.take(i as int)),
        decreases parts@.len() - i,
    {
        let ghost before = r@;
        if i > 0 {
            r.append(",");
        }
        r.append(parts[i].as_str());
        proof {
            assert(vs.take(i + 1).drop_last() =~= vs.take(i as int));
            assert(vs.take(i + 1).last() == parts@[i as int]@);
            if i == 0 {
                assert(vs.take(0) =~= Seq::<Seq<char>>::empty());
                assert(r@ =~= open@ + join(vs.take(i + 1)));
            } else {
                assert(r@ =~= open@ + join(vs.take(i + 1)));
            }
        }
        i = i + 1;
    }
    assert(vs.take(parts@.len() as int) =~= vs);
    r.append(close);
    r
}

fn push_escaped(out: &mut String, c: char)
    ensures
        final(out)@ == old(out)@ + escape_char(c),
{
    let ghost start = out@;
    if c == '"' {
        push_char(out, '\\');
        push_char(out, '"');
    } else if c == '\\' {
        push_char(out, '\\');
        push_char(out, '\\');
    } else if (c as u32) < 0x20 {
        let n: u32 = c as u32;
        push_char(out, '\\');
        push_char(out, 'u');
        push_char(out, '0');
        push_char(out, '0');
        push_char(out, nibble_char(n / 16));
        push_char(out, nibble_char(n % 16));
    } else {
        push_char(out, c);
    }
    assert(out@ =~= start + escape_char(c));
}

fn nibble_char(n: u32) -> (c: char)
    requires
        n < 16,
    ensures
        c == hex_digit(n as int),
{
    let b: u8 = n as u8;
    if b < 10 {
        (b + 48) as char
    } else {
        (b + 87) as char
    }
}

/// A JSON string literal holding `s`.
pub fn string_json(s: &str) -> (r: String)
    ensures
        r@ == json_string(s@),
{
    let mut out = String::new();
    push_char(&mut out, '"');
    let n = s.unicode_len();
    let mut i: usize = 0;
    while i < n
        invariant
            n == s@.len(),
            0 <= i <= n,
            out@ == seq!['"'] + escaped(s@.take(i as int)),
        decreases n - i,
    {
        let c = s.get_char(i);
        push_escaped(&mut out, c);
        proof {
            assert(s@.take(i + 1).drop_last() =~= s@.take(i as int));
            assert(out@ =~= seq!['"'] + escaped(s@.take(i + 1)));
        }
        i = i + 1;
    }
    assert(s@.take(n as int) =~= s@);
    push_char(&mut out, '"');
    assert(out@ =~= json_string(s@));
    out
}

fn push_decimal(out: &mut String, n: u64)
    ensures
        final(out)@ == old(out)@ + decimal_of(n as nat),
    decreases n,
{
    if n >= 10 {
        push_decimal(out, n / 10);
    }
    let d: u8 = (n % 10) as u8;
    push_char(out, (d + 48) as char);
    assert(final(out)@ =~= old(out)@ + decimal_of(n as nat));
}

/// Decimal text of a number.
pub fn decimal_text(n: u64) -> (r: String)
    ensures
        r@ == decimal_of(n as nat),
{
    let mut out = String::new();
    push_decimal(&mut out, n);
    assert(out@ =~= decimal_of(n as nat));
    out
}

/// Bytes as a quoted "0x"-prefixed hex string.
pub fn data_json(b: &[u8]) -> (r: String)
    ensures
        r@ == json_data(b@),
{
    String::from_str("\"0x")
        .concat(encode_hex(b).as_str())
        .concat("\"")
}

pub fn bool_json(b: bool) -> (r: String)
    ensures
        r@ == json_bool(b),
{
    if b {
        String::from_str("true")
    } else {
        String::from_str("false")
    }
}

/// Appends `name` and `value` as a field when `value` is present.
fn push_opt_field(fields: &mut Vec<String>, name: &str, value: Option<String>)
    ensures
        views(final(fields)@) == views(old(fields)@) + opt_field(
            name@,
            match value {
                Some(v) => Some(v@),
                None => None,
            },
        ),
{
    match value {
        Some(v) => {
            let f = String::from_str(name).concat(v.as_str());
            push_string(fields, f);
            assert(views(fields@) =~= views(old(fields)@) + seq![name@ + v@]);
        },
        None => {
            assert(views(fields@) =~= views(old(fields)@) + Seq::<Seq<char>>::empty());
        },
    }
}

pub open spec fn object_of(fields: Seq<Seq<char>>) -> Seq<char> {
    "{"@ + join(fields) + "}"@
}

pub open spec fn array_of(items: Seq<Seq<char>>) -> Seq<char> {
    "["@ + join(items) + "]"@
}

pub open spec fn opt_bool(b: Option<bool>) -> Option<Seq<char>> {
    match b {
        Some(x) => Some(json_bool(x)),
        None => None,
    }
}

/// A quantity as a quoted JSON string.
pub open spec fn json_quantity(n: nat) -> Seq<char> {
    "\""@ + quantity_text_of(n) + "\""@
}

pub open spec fn opt_quantity(q: Option<u64>) -> Option<Seq<char>> {
    match q {
        Some(x) => Some(json_quantity(x as nat)),
        None => None,
    }
}

/// JSON of the inclusion conditions.
pub open spec fn inclusion_json(p: InclusionParams) -> Seq<char> {
    object_of(
        seq!["\"block\":"@ + json_quantity(p.block as nat)] + opt_field(
            "\"maxBlock\":"@,
            opt_quantity(p.max_block),
        ),
    )
}

/// JSON of one body entry.
pub open spec fn bundle_tx_json(t: BundleTx) -> Seq<char> {
    match t {
        BundleTx::TxHash { hash } => object_of(seq!["\"hash\":"@ + json_data(hash@)]),
        BundleTx::Tx { tx, can_revert } => object_of(
            seq!["\"tx\":"@ + json_data(tx@), "\"canRevert\":"@ + json_bool(can_revert)],
        ),
    }
}

pub open spec fn refund_json(r: Refund) -> Seq<char> {
    object_of(
        seq![
            "\"bodyIdx\":"@ + decimal_of(r.body_idx as nat),
            "\"percent\":"@ + decimal_of(r.percent as nat),
        ],
    )
}

pub open spec fn refund_config_json(c: RefundConfig) -> Seq<char> {
    object_of(
        seq![
            "\"address\":"@ + json_string(c.address@),
            "\"percent\":"@ + decimal_of(c.percent as nat),
        ],
    )
}

/// JSON of the validity conditions.
pub open spec fn validity_json(v: ValidityParams) -> Seq<char> {
    object_of(
        opt_field(
            "\"refund\":"@,
            match v.refund {
                Some(rs) => Some(array_of(rs@.map_values(|r: Refund| refund_json(r)))),
                None => None,
            },
        ) + opt_field(
            "\"refundConfig\":"@,
            match v.refund_config {
                Some(cs) => Some(
                    array_of(cs@.map_values(|c: RefundConfig| refund_config_json(c))),
                ),
                None => None,
            },
        ),
    )
}

/// JSON of the hint preferences.
pub open spec fn hints_json(h: HintPreference) -> Seq<char> {
    object_of(
        opt_field("\"calldata\":"@, opt_bool(h.calldata)) + opt_field(
            "\"contractAddress\":"@,
            opt_bool(h.contract_address),
        ) + opt_field("\"functionSelector\":"@, opt_bool(h.function_selector)) + opt_field(
            "\"logs\":"@,
            opt_bool(h.logs),
        ) + opt_field("\"txHash\":"@, opt_bool(h.tx_hash)),
    )
}

/// JSON of the privacy parameters.
pub open spec fn privacy_json(p: PrivacyParams) -> Seq<char> {
    object_of(
        opt_field(
            "\"hints\":"@,
            match p.hints {
                Some(h) => Some(hints_json(h)),
                None => None,
            },
        ) + seq![
            "\"builders\":"@ + array_of(p.builders@.map_values(|s: String| json_string(s@))),
        ],
    )
}

/// JSON of a bundle, the parameter of `mev_sendBundle`.
pub open spec fn bundle_json(b: Bundle) -> Seq<char> {
    object_of(
        seq![
            "\"version\":\"v0.1\""@,
            "\"inclusion\":"@ + inclusion_json(b.inclusion),
            "\"body\":"@ + array_of(b.body@.map_values(|t: BundleTx| bundle_tx_json(t))),
        ] + opt_field(
            "\"validity\":"@,
            match b.validity {
                Some(v) => Some(validity_json(v)),
                None => None,
            },
        ) + opt_field(
            "\"privacy\":"@,
            match b.privacy {
                Some(p) => Some(privacy_json(p)),
                None => None,
            },
        ),
    )
}

fn field(name: &str, value: String) -> (r: String)
    ensures
        r@ == name@ + value@,
{
    String::from_str(name).concat(value.as_str())
}

/// A quantity as a quoted JSON string, e.g. "\"0x100\"".
pub fn quantity_json(n: u64) -> (r: String)
    ensures
        r@ == json_quantity(n as nat),
{
    String::from_str("\"").concat(quantity_text(n).as_str()).concat("\"")
}

fn opt_bool_json(b: Option<bool>) -> (r: Option<String>)
    ensures
        match r {
            Some(v) => Some(v@),
            None => None,
        } == opt_bool(b),
{
    match b {
        Some(x) => Some(bool_json(x)),
        None => None,
    }
}

/// JSON of the inclusion conditions.
pub fn inclusion_to_json(p: &InclusionParams) -> (r: String)
    ensures
        r@ == inclusion_json(*p),
{
    let mut fields: Vec<String> = Vec::new();
    push_string(&mut fields, field("\"block\":", quantity_json(p.block)));
    let max_block = match p.max_block {
        Some(m) => Some(quantity_json(m)),
        None => None,
    };
    push_opt_field(&mut fields, "\"maxBlock\":", max_block);
    let r = join_strings(&fields, "{", "}");
    assert(views(fields@) =~= seq!["\"block\":"@ + json_quantity(p.block as nat)] + opt_field(
        "\"maxBlock\":"@,
        opt_quantity(p.max_block),
    ));
    r
}

/// JSON of one body entry.
pub fn bundle_tx_to_json(t: &BundleTx) -> (r: String)
    ensures
        r@ == bundle_tx_json(*t),
{
    let mut fields: Vec<String> = Vec::new();
    match t {
        BundleTx::TxHash { hash } => {
            push_string(&mut fields, field("\"hash\":", data_json(hash.as_slice())));
            assert(views(fields@) =~= seq!["\"hash\":"@ + json_data(hash@)]);
        },
        BundleTx::Tx { tx, can_revert } => {
            push_string(&mut fields, field("\"tx\":", data_json(tx.as_slice())));
            push_string(&mut fields, field("\"canRevert\":", bool_json(*can_revert)));
            assert(views(fields@) =~= seq![
                "\"tx\":"@ + json_data(tx@),
                "\"canRevert\":"@ + json_bool(*can_revert),
            ]);
        },
    }
    join_strings(&fields, "{", "}")
}

/// JSON of the body entries, in their order.
pub fn body_to_json(body: &Vec<BundleTx>) -> (r: String)
    ensures
        r@ == array_of(body@.map_values(|t: BundleTx| bundle_tx_json(t))),
{
    let mut parts: Vec<String> = Vec::new();
    let mut i: usize = 0;
    while i < body.len()
        invariant
            0 <= i <= body@.len(),
            views(parts@) =~= body@.take(i as int).map_values(|t: BundleTx| bundle_tx_json(t)),
        decreases body@.len() - i,
    {
        push_string(&mut parts, bundle_tx_to_json(&body[i]));
        i = i + 1;
    }
    assert(body@.take(body@.len() as int) =~= body@);
    join_strings(&parts, "[", "]")
}

fn refunds_to_json(rs: &Vec<Refund>) -> (r: String)
    ensures
        r@ == array_of(rs@.map_values(|r: Refund| refund_json(r))),
{
    let mut parts: Vec<String> = Vec::new();
    let mut i: usize = 0;
    while i < rs.len()
        invariant
            0 <= i <= rs@.len(),
            views(parts@) =~= rs@.take(i as int).map_values(|r: Refund| refund_json(r)),
        decreases rs@.len() - i,
    {
        let mut fields: Vec<String> = Vec::new();
        push_string(&mut fields, field("\"bodyIdx\":", decimal_text(rs[i].body_idx as u64)));
        push_string(&mut fields, field("\"percent\":", decimal_text(rs[i].percent as u64)));
        assert(views(fields@) =~= seq![
            "\"bodyIdx\":"@ + decimal_of(rs@[i as int].body_idx as nat),
            "\"percent\":"@ + decimal_of(rs@[i as int].percent as nat),
        ]);
        push_string(&mut parts, join_strings(&fields, "{", "}"));
        i = i + 1;
    }
    assert(rs@.take(rs@.len() as int) =~= rs@);
    join_strings(&parts, "[", "]")
}

fn refund_configs_to_json(cs: &Vec<RefundConfig>) -> (r: String)
    ensures
        r@ == array_of(cs@.map_values(|c: RefundConfig| refund_config_json(c))),
{
    let mut parts: Vec<String> = Vec::new();
    let mut i: usize = 0;
    while i < cs.len()
        invariant
            0 <= i <= cs@.len(),
            views(parts@) =~= cs@.take(i as int).map_values(
                |c: RefundConfig| refund_config_json(c),
            ),
        decreases cs@.len() - i,
    {
        let mut fields: Vec<String> = Vec::new();
        push_string(&mut fields, field("\"address\":", string_json(cs[i].address.as_str())));
        push_string(&mut fields, field("\"percent\":", decimal_text(cs[i].percent as u64)));
        assert(views(fields@) =~= seq![
            "\"address\":"@ + json_string(cs@[i as int].address@),
            "\"percent\":"@ + decimal_of(cs@[i as int].percent as nat),
        ]);
        push_string(&mut parts, join_strings(&fields, "{", "}"));
        i = i + 1;
    }
    assert(cs@.take(cs@.len() as int) =~= cs@);
    join_strings(&parts, "[", "]")
}

fn builders_to_json(bs: &Vec<String>) -> (r: String)
    ensures
        r@ == array_of(bs@.map_values(|s: String| json_string(s@))),
{
    let mut parts: Vec<String> = Vec::new();
    let mut i: usize = 0;
    while i < bs.len()
        invariant
            0 <= i <= bs@.len(),
            views(parts@) =~= bs@.take(i as int).map_values(|s: String| json_string(s@)),
        decreases bs@.len() - i,
    {
        push_string(&mut parts, string_json(bs[i].as_str()));
        i = i + 1;
    }
    assert(bs@.take(bs@.len() as int) =~= bs@);
    join_strings(&parts, "[", "]")
}

/// JSON of the validity conditions.
pub fn validity_to_json(v: &ValidityParams) -> (r: String)
    ensures
        r@ == validity_json(*v),
{
    let mut fields: Vec<String> = Vec::new();
    let refund = match &v.refund {
        Some(rs) => Some(refunds_to_json(rs)),
        None => None,
    };
    push_opt_field(&mut fields, "\"refund\":", refund);
    let config = match &v.refund_config {
        Some(cs) => Some(refund_configs_to_json(cs)),
        None => None,
    };
    push_opt_field(&mut fields, "\"refundConfig\":", config);
    join_strings(&fields, "{", "}")
}

/// JSON of the hint preferences.
pub fn hints_to_json(h: &HintPreference) -> (r: String)
    ensures
        r@ == hints_json(*h),
{
    let mut fields: Vec<String> = Vec::new();
    push_opt_field(&mut fields, "\"calldata\":", opt_bool_json(h.calldata));
    push_opt_field(&mut fields, "\"contractAddress\":", opt_bool_json(h.contract_address));
    push_opt_field(&mut fields, "\"functionSelector\":", opt_bool_json(h.function_selector));
    push_opt_field(&mut fields, "\"logs\":", opt_bool_json(h.logs));
    push_opt_field(&mut fields, "\"txHash\":", opt_bool_json(h.tx_hash));
    join_strings(&fields, "{", "}")
}

/// JSON of the privacy parameters.
pub fn privacy_to_json(p: &PrivacyParams) -> (r: String)
    ensures
        r@ == privacy_json(*p),
{
    let mut fields: Vec<String> = Vec::new();
    let hints = match &p.hints {
        Some(h) => Some(hints_to_json(h)),
        None => None,
    };
    push_opt_field(&mut fields, "\"hints\":", hints);
    let ghost with_hints = views(fields@);
    push_string(&mut fields, field("\"builders\":", builders_to_json(&p.builders)));
    assert(views(fields@) =~= with_hints + seq![
        "\"builders\":"@ + array_of(p.builders@.map_values(|s: String| json_string(s@))),
    ]);
    join_strings(&fields, "{", "}")
}

/// JSON of a bundle, the single parameter of `mev_sendBundle`.
pub fn bundle_to_json(b: &Bundle) -> (r: String)
    ensures
        r@ == bundle_json(*b),
{
    let mut fields: Vec<String> = Vec::new();
    push_string(&mut fields, String::from_str("\"version\":\"v0.1\""));
    push_string(&mut fields, field("\"inclusion\":", inclusion_to_json(&b.inclusion)));
    push_string(&mut fields, field("\"body\":", body_to_json(&b.body)));
    assert(views(fields@) =~= seq![
        "\"version\":\"v0.1\""@,
        "\"inclusion\":"@ + inclusion_json(b.inclusion),
        "\"body\":"@ + array_of(b.body@.map_values(|t: BundleTx| bundle_tx_json(t))),
    ]);
    let validity = match &b.validity {
        Some(v) => Some(validity_to_json(v)),
        None => None,
    };
    push_opt_field(&mut fields, "\"validity\":", validity);
    let privacy = match &b.privacy {
        Some(p) => Some(privacy_to_json(p)),
        None => None,
    };
    push_opt_field(&mut fields, "\"privacy\":", privacy);
    join_strings(&fields, "{", "}")
}

/// Absent optional fields are left out: a bundle without validity, privacy
/// and maximum block is written with its version, target block and body only.
pub proof fn lemma_absent_fields_omitted(b: Bundle)
    requires
        b.validity is None,
        b.privacy is None,
        b.inclusion.max_block is None,
    ensures
        bundle_json(b) == "{"@ + "\"version\":\"v0.1\""@ + ","@ + "\"inclusion\":"@ + "{"@
            + "\"block\":"@ + json_quantity(b.inclusion.block as nat) + "}"@ + ","@
            + "\"body\":"@ + array_of(b.body@.map_values(|t: BundleTx| bundle_tx_json(t)))
            + "}"@,
{
    let a = "\"version\":\"v0.1\""@;
    let i = "\"inclusion\":"@ + inclusion_json(b.inclusion);
    let c = "\"body\":"@ + array_of(b.body@.map_values(|t: BundleTx| bundle_tx_json(t)));
    let fields = seq![a, i, c] + opt_field("\"validity\":"@, None) + opt_field(
        "\"privacy\":"@,
        None,
    );
    assert(fields =~= seq![a, i, c]);
    assert(seq![a, i, c].drop_last() =~= seq![a, i]);
    assert(seq![a, i].drop_last() =~= seq![a]);
    let inc = seq!["\"block\":"@ + json_quantity(b.inclusion.block as nat)];
    assert(seq!["\"block\":"@ + json_quantity(b.inclusion.block as nat)] + opt_field(
        "\"maxBlock\":"@,
        opt_quantity(b.inclusion.max_block),
    ) =~= inc);
    assert(join(inc) == inc[0]);
    assert(join(seq![a]) == a);
    assert(seq![a, i].last() == i);
    assert(join(seq![a, i]) == a + ","@ + i);
    assert(seq![a, i, c].last() == c);
    assert(join(seq![a, i, c]) == a + ","@ + i + ","@ + c);
    assert(bundle_json(b) =~= "{"@ + "\"version\":\"v0.1\""@ + ","@ + "\"inclusion\":"@ + "{"@
        + "\"block\":"@ + json_quantity(b.inclusion.block as nat) + "}"@ + ","@ + "\"body\":"@
        + array_of(b.body@.map_values(|t: BundleTx| bundle_tx_json(t))) + "}"@);
}

} // verus!
