//! Speed/quantizer pairs: the table that maps an encoder speed preset to the
//! quantizer at which it applies, as set by `scale-speed` and `convex-hull`.
use vstd::prelude::*;

use crate::text::{decimal, push_decimal};

verus! {

/// Why a `scale-speed` request was refused.
pub enum SpeedScalerError {
    /// The number of quantizers differs from the number of speeds.
    MismatchedPairs { quantizers: usize, speeds: usize },
    /// Exactly one pair was given; scaling needs none or at least two.
    MinimumPairsRequired,
}

/// Why a `convex-hull` request was refused.
pub enum ConvexHullError {
    /// The number of quantizers differs from the number of speeds.
    MismatchedPairs { quantizers: usize, speeds: usize },
    /// Fewer than two pairs were given.
    MinimumPairsRequired,
}

/// The message shown for a mismatch between `quantizers` and `speeds`.
pub open spec fn mismatch_text(quantizers: nat, speeds: nat) -> Seq<char> {
    "Mismatched speed-quantizer pairs: got "@ + decimal(quantizers) + " quantizer(s) and "@
        + decimal(speeds)
        + " speed(s). Each --quantizer must have a matching --speed value."@
}

/// The message shown when too few pairs were given.
pub open spec fn minimum_pairs_text() -> Seq<char> {
    "At least 2 speed-quantizer pairs are required."@
}

fn mismatch_message(quantizers: usize, speeds: usize) -> (r: String)
    ensures
        r@ == mismatch_text(quantizers as nat, speeds as nat),
{
    let mut r = "Mismatched speed-quantizer pairs: got ".to_owned();
    push_decimal(&mut r, quantizers as u64);
    r.append(" quantizer(s) and ");
    push_decimal(&mut r, speeds as u64);
    r.append(" speed(s). Each --quantizer must have a matching --speed value.");
    r
}

impl SpeedScalerError {
    /// The error's message.
    pub open spec fn message_text(self) -> Seq<char> {
        match self {
            SpeedScalerError::MismatchedPairs { quantizers, speeds } => mismatch_text(
                quantizers as nat,
                speeds as nat,
            ),
            SpeedScalerError::MinimumPairsRequired => minimum_pairs_text(),
        }
    }

    /// The error's message.
    pub fn message(&self) -> (r: String)
        ensures
            r@ == self.message_text(),
    {
        match self {
            SpeedScalerError::MismatchedPairs { quantizers, speeds } => mismatch_message(
                *quantizers,
                *speeds,
            ),
            SpeedScalerError::MinimumPairsRequired => "At least 2 speed-quantizer pairs are required.".to_owned(),
        }
    }
}

impl ConvexHullError {
    /// The error's message.
    pub open spec fn message_text(self) -> Seq<char> {
        match self {
            ConvexHullError::MismatchedPairs { quantizers, speeds } => mismatch_text(
                quantizers as nat,
                speeds as nat,
            ),
            ConvexHullError::MinimumPairsRequired => minimum_pairs_text(),
        }
    }

    /// The error's message.
    pub fn message(&self) -> (r: String)
        ensures
            r@ == self.message_text(),
    {
        match self {
            ConvexHullError::MismatchedPairs { quantizers, speeds } => mismatch_message(
                *quantizers,
                *speeds,
            ),
            ConvexHullError::MinimumPairsRequired => "At least 2 speed-quantizer pairs are required.".to_owned(),
        }
    }
}

/// The pairs `(speeds[i], quantizers[i])`, in order.
pub open spec fn zip_pairs(speeds: Seq<i8>, quantizers: Seq<i8>) -> Seq<(i8, i8)>
    recommends
        speeds.len() == quantizers.len(),
{
    Seq::new(speeds.len(), |i: int| (speeds[i], quantizers[i]))
}

/// The speeds of a pair table, in order.
pub open spec fn speeds_of(pairs: Seq<(i8, i8)>) -> Seq<i8> {
    pairs.map_values(|p: (i8, i8)| p.0)
}

/// The quantizers of a pair table, in order.
pub open spec fn quantizers_of(pairs: Seq<(i8, i8)>) -> Seq<i8> {
    pairs.map_values(|p: (i8, i8)| p.1)
}

/// What `configure_scale_speed` makes of the current table and the requested
/// quantizers and speeds: a missing list is taken from the current table.
pub open spec fn scale_speed_outcome(
    current: Seq<(i8, i8)>,
    quantizers: Option<Seq<i8>>,
    speeds: Option<Seq<i8>>,
) -> Result<Seq<(i8, i8)>, SpeedScalerError> {
    let q = match quantizers {
        Some(q) => q,
        None => quantizers_of(current),
    };
    let s = match speeds {
        Some(s) => s,
        None => speeds_of(current),
    };
    if q.len() != s.len() {
        Err(SpeedScalerError::MismatchedPairs { quantizers: q.len() as usize, speeds: s.len() as usize })
    } else if 0 < q.len() < 2 {
        Err(SpeedScalerError::MinimumPairsRequired)
    } else {
        Ok(zip_pairs(s, q))
    }
}

/// What `check_convex_hull_pairs` makes of the requested quantizers and speeds.
pub open spec fn convex_hull_outcome(quantizers: Seq<i8>, speeds: Seq<i8>) -> Result<
    Seq<(i8, i8)>,
    ConvexHullError,
> {
    if quantizers.len() != speeds.len() {
        Err(
            ConvexHullError::MismatchedPairs {
                quantizers: quantizers.len() as usize,
                speeds: speeds.len() as usize,
            },
        )
    } else if quantizers.len() < 2 {
        Err(ConvexHullError::MinimumPairsRequired)
    } else {
        Ok(zip_pairs(speeds, quantizers))
    }
}

fn split_pairs(pairs: &Vec<(i8, i8)>) -> (r: (Vec<i8>, Vec<i8>))
    ensures
        r.0@ == quantizers_of(pairs@),
        r.1@ == speeds_of(pairs@),
{
    let mut qs: Vec<i8> = Vec::new();
    let mut ss: Vec<i8> = Vec::new();
    let mut i: usize = 0;
    while i < pairs.len()
        invariant
            i <= pairs@.len(),
            qs@ == quantizers_of(pairs@.subrange(0, i as int)),
            ss@ == speeds_of(pairs@.subrange(0, i as int)),
        decreases pairs@.len() - i,
    {
        let (s, q) = pairs[i];
        qs.push(q);
        ss.push(s);
        i = i + 1;
        assert(qs@ =~= quantizers_of(pairs@.subrange(0, i as int)));
        assert(ss@ =~= speeds_of(pairs@.subrange(0, i as int)));
    }
    assert(pairs@.subrange(0, i as int) =~= pairs@);
    (qs, ss)
}

fn zip_vec(speeds: &[i8], quantizers: &[i8]) -> (r: Vec<(i8, i8)>)
    requires
        speeds@.len() == quantizers@.len(),
    ensures
        r@ == zip_pairs(speeds@, quantizers@),
{
    let mut r: Vec<(i8, i8)> = Vec::new();
    let mut i: usize = 0;
    while i < speeds.len()
        invariant
            speeds@.len() == quantizers@.len(),
            i <= speeds@.len(),
            r@ == zip_pairs(speeds@, quantizers@).subrange(0, i as int),
        decreases speeds@.len() - i,
    {
        r.push((speeds[i], quantizers[i]));
        i = i + 1;
        assert(r@ =~= zip_pairs(speeds@, quantizers@).subrange(0, i as int));
    }
    assert(zip_pairs(speeds@, quantizers@).subrange(0, i as int) =~= zip_pairs(
        speeds@,
        quantizers@,
    ));
    r
}

/// Replaces the speed/quantizer table of the speed scaler with the requested
/// pairs. A list that is not given is kept from the current table. The
/// request is refused, and the table left as it was, when the two lists
/// differ in length or hold exactly one pair.
pub fn configure_scale_speed(
    speed_quantizers: &mut Vec<(i8, i8)>,
    quantizers: Option<&[i8]>,
    speeds: Option<&[i8]>,
) -> (r: Result<(), SpeedScalerError>)
    ensures
        ({
            let outcome = scale_speed_outcome(
                old(speed_quantizers)@,
                match quantizers {
                    Some(q) => Some(q@),
                    None => None,
                },
                match speeds {
                    Some(s) => Some(s@),
                    None => None,
                },
            );
            match outcome {
                Ok(pairs) => r is Ok && final(speed_quantizers)@ == pairs,
                Err(e) => r == Err::<(), SpeedScalerError>(e) && final(speed_quantizers)@ == old(
                    speed_quantizers,
                )@,
            }
        }),
{
    let (existing_quantizers, existing_speeds) = split_pairs(speed_quantizers);
    let q: &[i8] = match quantizers {
        Some(q) => q,
        None => existing_quantizers.as_slice(),
    };
    let s: &[i8] = match speeds {
        Some(s) => s,
        None => existing_speeds.as_slice(),
    };
    if q.len() != s.len() {
        return Err(SpeedScalerError::MismatchedPairs { quantizers: q.len(), speeds: s.len() });
    }
    if q.len() != 0 && q.len() < 2 {
        return Err(SpeedScalerError::MinimumPairsRequired);
    }
    *speed_quantizers = zip_vec(s, q);
    Ok(())
}

/// Checks the speed/quantizer pairs requested for the convex hull and pairs
/// them up: the two lists must have the same length, at least two.
pub fn check_convex_hull_pairs(quantizers: &[i8], speeds: &[i8]) -> (r: Result<
    Vec<(i8, i8)>,
    ConvexHullError,
>)
    ensures
        match convex_hull_outcome(quantizers@, speeds@) {
            Ok(pairs) => r matches Ok(v) && v@ == pairs,
            Err(e) => r == Err::<Vec<(i8, i8)>, ConvexHullError>(e),
        },
{
    if quantizers.len() != speeds.len() {
        return Err(
            ConvexHullError::MismatchedPairs { quantizers: quantizers.len(), speeds: speeds.len() },
        );
    }
    if quantizers.len() < 2 {
        return Err(ConvexHullError::MinimumPairsRequired);
    }
    Ok(zip_vec(speeds, quantizers))
}

/// A request that gives neither list keeps the current table, unless the
/// table holds exactly one pair (which is refused).
pub proof fn lemma_empty_request_keeps_table(current: Seq<(i8, i8)>)
    requires
        current.len() != 1,
    ensures
        scale_speed_outcome(current, None, None) == Ok::<Seq<(i8, i8)>, SpeedScalerError>(current),
{
    assert(zip_pairs(speeds_of(current), quantizers_of(current)) =~= current);
}

/// After a successful request, the table pairs the requested speeds with the
/// requested quantizers, so asking again with no lists gives the same table.
pub proof fn lemma_request_is_stable(
    current: Seq<(i8, i8)>,
    quantizers: Option<Seq<i8>>,
    speeds: Option<Seq<i8>>,
)
    requires
        scale_speed_outcome(current, quantizers, speeds) is Ok,
    ensures
        ({
            let table = scale_speed_outcome(current, quantizers, speeds)->Ok_0;
            scale_speed_outcome(table, None, None) == Ok::<Seq<(i8, i8)>, SpeedScalerError>(table)
        }),
{
    let table = scale_speed_outcome(current, quantizers, speeds)->Ok_0;
    lemma_empty_request_keeps_table(table);
}

/// A successful speed-scaler request pairs, position by position, each
/// speed with the quantizer at the same place, taking a list that was not
/// given from the current table; it is refused exactly when the two lists
/// differ in length or hold one pair.
pub proof fn lemma_scale_speed_pairs(
    current: Seq<(i8, i8)>,
    quantizers: Option<Seq<i8>>,
    speeds: Option<Seq<i8>>,
)
    ensures
        ({
            let nq = match quantizers {
                Some(q) => q.len(),
                None => current.len(),
            };
            let ns = match speeds {
                Some(s) => s.len(),
                None => current.len(),
            };
            match scale_speed_outcome(current, quantizers, speeds) {
                Ok(table) => {
                    &&& nq == ns && nq != 1
                    &&& table.len() == ns
                    &&& forall|i: int|
                        0 <= i < table.len() ==> #[trigger] table[i] == (
                            match speeds {
                                Some(s) => s[i],
                                None => current[i].0,
                            },
                            match quantizers {
                                Some(q) => q[i],
                                None => current[i].1,
                            },
                        )
                },
                Err(_) => nq != ns || nq == 1,
            }
        }),
{
}

/// Convex-hull pairs are accepted exactly when both lists have the same
/// length of at least two, and then pair each speed with the quantizer at
/// the same place.
pub proof fn lemma_convex_hull_pairs(quantizers: Seq<i8>, speeds: Seq<i8>)
    ensures
        match convex_hull_outcome(quantizers, speeds) {
            Ok(pairs) => {
                &&& quantizers.len() == speeds.len() >= 2
                &&& pairs.len() == speeds.len()
                &&& forall|i: int|
                    0 <= i < pairs.len() ==> #[trigger] pairs[i] == (speeds[i], quantizers[i])
            },
            Err(_) => quantizers.len() != speeds.len() || quantizers.len() < 2,
        },
{
}

} // verus!
