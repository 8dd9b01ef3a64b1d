//! Alert deduplication: the fingerprint that identifies a deal's price tier,
//! and the rule that decides whether a deal is alerted again.
//!
//! A fingerprint is the SHA-256 digest, hex encoded, of
//! `origin|destination|departure|bucket`, where `bucket` is the price rounded
//! down to the configured bucket size. The bucket itself is floating point
//! arithmetic on the price and is computed by the application.

use vstd::prelude::*;
use vstd::utf8::encode_utf8;

use crate::dates::{iso_date_text, Date};
use crate::config::texts;
use crate::text::{decimal, decimal_text};

verus! {

/// The SHA-256 digest of `data`, as the sha2 crate computes it.
pub uninterp spec fn sha256_digest(data: Seq<u8>) -> Seq<u8>;

/// sha2's `Sha256::digest`. Claims: the 32-byte digest named by `sha256_digest`.
#[verifier::external_body]
fn sha256(data: &[u8]) -> (r: Vec<u8>)
    ensures
        r@ == sha256_digest(data@),
        r@.len() == 32,
{
    <sha2::Sha256 as sha2::Digest>::digest(data).to_vec()
}

/// Lower-case hexadecimal digit of a value below 16.
pub open spec fn hex_digit(v: int) -> char {
    if v < 10 {
        ('0' as int + v) as char
    } else {
        ('a' as int + v - 10) as char
    }
}

/// Lower-case hex encoding: each byte becomes its high then its low nibble.
pub open spec fn hex_text(bytes: Seq<u8>) -> Seq<char>
    decreases bytes.len(),
{
    if bytes.len() == 0 {
        Seq::empty()
    } else {
        seq![hex_digit(bytes[0] as int / 16), hex_digit(bytes[0] as int % 16)] + hex_text(bytes.drop_first())
    }
}

/// A lower-case hexadecimal digit.
pub open spec fn is_lower_hex(c: char) -> bool {
    ('0' <= c && c <= '9') || ('a' <= c && c <= 'f')
}

/// Hex text has two lower-case hex digits per byte.
pub proof fn lemma_hex_text_form(bytes: Seq<u8>)
    ensures
        hex_text(bytes).len() == 2 * bytes.len(),
        forall|i: int| 0 <= i < hex_text(bytes).len() ==> is_lower_hex(#[trigger] hex_text(bytes)[i]),
    decreases bytes.len(),
{
    if bytes.len() > 0 {
        lemma_hex_text_form(bytes.drop_first());
        let head = seq![hex_digit(bytes[0] as int / 16), hex_digit(bytes[0] as int % 16)];
        let rest = hex_text(bytes.drop_first());
        assert forall|i: int| 0 <= i < hex_text(bytes).len() implies is_lower_hex(#[trigger] hex_text(bytes)[i]) by {
            if i >= 2 {
                assert(hex_text(bytes)[i] == rest[i - 2]);
            }
        }
    }
}

/// hex's `hex::encode`. Claims: the lower-case encoding `hex_text`, high
/// nibble first, as the crate's `HEX_CHARS_LOWER` table gives it.
#[verifier::external_body]
fn hex_encode(data: &[u8]) -> (r: String)
    ensures
        r@ == hex_text(data@),
{
    hex::encode(data)
}

/// The text a fingerprint is the digest of.
pub open spec fn fingerprint_source(
    origin: Seq<char>,
    destination: Seq<char>,
    departure: int,
    bucket: nat,
) -> Seq<char> {
    origin + seq!['|'] + destination + seq!['|'] + iso_date_text(departure) + seq!['|']
        + decimal_text(bucket)
}

/// The fingerprint of a deal's price tier.
pub open spec fn fingerprint_text(
    origin: Seq<char>,
    destination: Seq<char>,
    departure: int,
    bucket: nat,
) -> Seq<char> {
    hex_text(sha256_digest(encode_utf8(fingerprint_source(origin, destination, departure, bucket))))
}

/// The deduplication fingerprint of a deal on `origin`-`destination` departing
/// on `departure` whose price falls in the bucket starting at `bucket` dollars.
pub fn fingerprint(origin: &str, destination: &str, departure: Date, bucket: u64) -> (r: String)
    ensures
        r@ == fingerprint_text(origin@, destination@, departure@, bucket as nat),
        r@.len() == 64,
        forall|i: int| 0 <= i < r@.len() ==> is_lower_hex(#[trigger] r@[i]),
{
    proof {
        reveal_strlit("|");
    }
    let mut raw = origin.to_owned();
    raw.append("|");
    raw.append(destination);
    raw.append("|");
    let date = departure.iso_text();
    raw.append(date.as_str());
    raw.append("|");
    let amount = decimal(bucket);
    raw.append(amount.as_str());
    assert(raw@ =~= fingerprint_source(origin@, destination@, departure@, bucket as nat));
    let text = raw.as_str();
    let bytes = text.as_bytes();
    assert(bytes@ == encode_utf8(fingerprint_source(origin@, destination@, departure@, bucket as nat)));
    let digest = sha256(bytes);
    proof {
        lemma_hex_text_form(digest@);
    }
    hex_encode(digest.as_slice())
}

/// Why a deal is or is not alerted.
#[derive(Debug, Clone, Copy, PartialEq, Eq, Structural)]
pub enum AlertDecision {
    /// A new deal: alert it.
    Alert,
    /// An alert with the same fingerprint was already sent.
    DuplicateFingerprint,
    /// The route and date were alerted before and the price has not dropped
    /// far enough below that alert since.
    InsufficientDrop,
}

/// Decides whether a deal is alerted, given whether its fingerprint was
/// already alerted and, when the route and departure date were alerted
/// before, whether the new price lies below the re-alert threshold of the
/// latest such alert (`None` when there was no earlier alert).
pub fn decide_alert(fingerprint_seen: bool, below_realert_threshold: Option<bool>) -> (r: AlertDecision)
    ensures
        r == spec_decide_alert(fingerprint_seen, below_realert_threshold),
        fingerprint_seen ==> r == AlertDecision::DuplicateFingerprint,
        !fingerprint_seen && below_realert_threshold == Some(false) ==> r == AlertDecision::InsufficientDrop,
        !fingerprint_seen && below_realert_threshold != Some(false) ==> r == AlertDecision::Alert,
{
    if fingerprint_seen {
        return AlertDecision::DuplicateFingerprint;
    }
    match below_realert_threshold {
        Some(false) => AlertDecision::InsufficientDrop,
        _ => AlertDecision::Alert,
    }
}

impl AlertDecision {
    /// Whether the decision is to send the alert.
    pub fn should_alert(&self) -> (r: bool)
        ensures
            r == (*self == AlertDecision::Alert),
    {
        match self {
            AlertDecision::Alert => true,
            _ => false,
        }
    }
}

pub open spec fn spec_decide_alert(fingerprint_seen: bool, below_realert_threshold: Option<bool>) -> AlertDecision {
    if fingerprint_seen {
        AlertDecision::DuplicateFingerprint
    } else if below_realert_threshold == Some(false) {
        AlertDecision::InsufficientDrop
    } else {
        AlertDecision::Alert
    }
}

/// Index `i` is chosen by [`select_alerts`]: its decision is to alert and no
/// earlier chosen index has the same fingerprint.
pub open spec fn chosen_alerts_ok(fingerprints: Seq<Seq<char>>, decisions: Seq<AlertDecision>, chosen: Seq<usize>) -> bool {
    &&& forall|k: int| 0 <= k < chosen.len() ==> #[trigger] chosen[k] < fingerprints.len()
    &&& forall|k: int, l: int| 0 <= k < l < chosen.len() ==> #[trigger] chosen[k] < #[trigger] chosen[l]
    &&& forall|k: int, l: int|
        0 <= k < l < chosen.len() ==> fingerprints[#[trigger] chosen[k] as int] != fingerprints[#[trigger] chosen[l] as int]
}

/// Index `i` is to be alerted among the first deals of a batch.
pub open spec fn alert_chosen(fingerprints: Seq<Seq<char>>, decisions: Seq<AlertDecision>, chosen: Seq<usize>, i: int) -> bool {
    decisions[i] == AlertDecision::Alert && forall|k: int|
        0 <= k < chosen.len() && chosen[k] < i ==> fingerprints[#[trigger] chosen[k] as int] != fingerprints[i]
}

/// The deals of one cycle to alert, by index: each deal whose own decision is
/// to alert, unless an earlier deal of the same cycle with the same
/// fingerprint is already being alerted. Once per deal holds within a cycle
/// too: no two chosen deals share a fingerprint.
pub fn select_alerts(fingerprints: &Vec<String>, decisions: &Vec<AlertDecision>) -> (r: Vec<usize>)
    requires
        fingerprints@.len() == decisions@.len(),
    ensures
        chosen_alerts_ok(texts(fingerprints@), decisions@, r@),
        forall|i: int|
            0 <= i < fingerprints@.len() ==> (r@.contains(i as usize) <==> #[trigger] alert_chosen(
                texts(fingerprints@),
                decisions@,
                r@,
                i,
            )),
{
    let ghost fps = texts(fingerprints@);
    let mut chosen: Vec<usize> = Vec::new();
    let mut i: usize = 0;
    while i < fingerprints.len()
        invariant
            fingerprints@.len() == decisions@.len(),
            fps == texts(fingerprints@),
            i <= fingerprints@.len(),
            chosen_alerts_ok(fps, decisions@, chosen@),
            forall|k: int| 0 <= k < chosen@.len() ==> #[trigger] chosen@[k] < i,
            forall|j: int| 0 <= j < i ==> (chosen@.contains(j as usize) <==> #[trigger] alert_chosen(fps, decisions@, chosen@, j)),
        decreases fingerprints@.len() - i,
    {
        let mut fresh = decisions[i] == AlertDecision::Alert;
        let mut k: usize = 0;
        while k < chosen.len()
            invariant
                fingerprints@.len() == decisions@.len(),
                fps == texts(fingerprints@),
                i < fingerprints@.len(),
                chosen_alerts_ok(fps, decisions@, chosen@),
                forall|m: int| 0 <= m < chosen@.len() ==> #[trigger] chosen@[m] < i,
                k <= chosen@.len(),
                fresh <==> (decisions@[i as int] == AlertDecision::Alert && forall|m: int|
                    0 <= m < k ==> fps[#[trigger] chosen@[m] as int] != fps[i as int]),
            decreases chosen@.len() - k,
        {
            if fingerprints[chosen[k]] == fingerprints[i] {
                fresh = false;
            }
            k = k + 1;
        }
        let ghost before = chosen@;
        proof {
            assert(fresh <==> alert_chosen(fps, decisions@, before, i as int));
        }
        if fresh {
            chosen.push(i);
        }
        proof {
            assert forall|j: int| 0 <= j < i + 1 implies (chosen@.contains(j as usize) <==> #[trigger] alert_chosen(
                fps,
                decisions@,
                chosen@,
                j,
            )) by {
                if j < i {
                    assert(chosen@.contains(j as usize) <==> before.contains(j as usize)) by {
                        if chosen@.contains(j as usize) {
                            let m = choose|m: int| 0 <= m < chosen@.len() && chosen@[m] == j as usize;
                            if m < before.len() {
                                assert(before[m] == j as usize);
                            }
                        }
                        if before.contains(j as usize) {
                            let m = choose|m: int| 0 <= m < before.len() && before[m] == j as usize;
                            assert(chosen@[m] == j as usize);
                        }
                    }
                    assert(alert_chosen(fps, decisions@, chosen@, j) <==> alert_chosen(fps, decisions@, before, j)) by {
                        if fresh {
                            assert forall|m: int| 0 <= m < chosen@.len() && chosen@[m] < j implies m < before.len() by {}
                            assert forall|m: int| 0 <= m < before.len() implies chosen@[m] == before[m] by {}
                        }
                    }
                } else {
                    if fresh {
                        assert(chosen@[before.len() as int] == i);
                        assert forall|m: int| 0 <= m < chosen@.len() && chosen@[m] < j implies fps[#[trigger] chosen@[m] as int] != fps[j] by {
                            assert(m < before.len());
                            assert(chosen@[m] == before[m]);
                        }
                    } else {
                        assert(!before.contains(i));
                        if alert_chosen(fps, decisions@, chosen@, j) {
                            assert(alert_chosen(fps, decisions@, before, j));
                        }
                    }
                }
            }
        }
        i = i + 1;
    }
    chosen
}

/// Once-per-deal law: once a deal has been alerted and its fingerprint
/// recorded, any deal on the same route and departure date whose price falls
/// in the same bucket has that same fingerprint and is not alerted again,
/// whatever its price. A deal is only alerted when its fingerprint is new and
/// its price is below the re-alert threshold of any earlier alert.
pub proof fn law_alert_once_per_tier(
    recorded: Set<Seq<char>>,
    origin: Seq<char>,
    destination: Seq<char>,
    departure: int,
    bucket: nat,
    below: Option<bool>,
)
    requires
        recorded.contains(fingerprint_text(origin, destination, departure, bucket)),
    ensures
        spec_decide_alert(
            recorded.contains(fingerprint_text(origin, destination, departure, bucket)),
            below,
        ) == AlertDecision::DuplicateFingerprint,
        forall|seen: bool|
            #[trigger] spec_decide_alert(seen, below) == AlertDecision::Alert ==> !seen && below
                != Some(false),
{
}

} // verus!
