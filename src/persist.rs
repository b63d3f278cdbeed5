use vstd::prelude::*;

verus! {

/// The expiry stamped on a persisted document, in milliseconds of wall-clock time:
/// `wall_now` plus the TTL, saturating at the last representable instant; none without TTL.
pub open spec fn document_expiry(wall_now: i64, ttl: Option<u64>) -> Option<i64> {
    match ttl {
        Some(t) => if wall_now + t * 1000 <= i64::MAX {
            Some((wall_now + t * 1000) as i64)
        } else {
            Some(i64::MAX)
        },
        None => None,
    }
}

/// The expiry field of the document written for a record with the given TTL in seconds.
/// It is informational only: the persistent tier does not enforce it.
pub fn document_expiry_millis(wall_now: i64, ttl: Option<u64>) -> (r: Option<i64>)
    ensures
        r == document_expiry(wall_now, ttl),
{
    match ttl {
        Some(t) => {
            let room: u64 = if wall_now >= 0 {
                (i64::MAX - wall_now) as u64
            } else {
                (i64::MAX as u64) + ((-(wall_now + 1)) as u64) + 1
            };
            if t <= room / 1000 {
                proof {
                    assert(t * 1000 <= room) by (nonlinear_arith)
                        requires
                            t <= room / 1000,
                    ;
                }
                let at = (wall_now as i128 + (t as i128) * 1000) as i64;
                Some(at)
            } else {
                proof {
                    assert(t * 1000 > room) by (nonlinear_arith)
                        requires
                            t > room / 1000,
                    ;
                }
                Some(i64::MAX)
            }
        },
        None => None,
    }
}

} // verus!
