//! The first finding of a scan: rules stop at the first violation they meet
//! when they walk a list in document order.

use vstd::prelude::*;

verus! {

/// The first entry of `findings` that holds a finding, if any does.
pub open spec fn first_finding<T>(findings: Seq<Option<T>>) -> Option<T>
    decreases findings.len(),
{
    if findings.len() == 0 {
        None
    } else {
        match first_finding(findings.drop_last()) {
            Some(found) => Some(found),
            None => findings.last(),
        }
    }
}

/// A scan finds nothing exactly if no place holds a finding.
pub proof fn lemma_first_finding_none<T>(findings: Seq<Option<T>>)
    ensures
        first_finding(findings) is None <==> forall|i: int|
            0 <= i < findings.len() ==> findings[i] is None,
    decreases findings.len(),
{
    if findings.len() > 0 {
        let front = findings.drop_last();
        lemma_first_finding_none(front);
        if first_finding(findings) is None {
            assert forall|i: int| 0 <= i < findings.len() implies findings[i] is None by {
                if i < front.len() {
                    assert(front[i] is None);
                }
            }
        } else if first_finding(front) is Some {
            let i = choose|i: int| 0 <= i < front.len() && !(front[i] is None);
            assert(findings[i] is Some);
        }
    }
}

/// A scan reports what stands at the first place that holds a finding,
/// whatever comes after it.
pub proof fn lemma_first_finding_at<T>(findings: Seq<Option<T>>, at: int)
    requires
        0 <= at < findings.len(),
        findings[at] is Some,
        forall|i: int| 0 <= i < at ==> findings[i] is None,
    ensures
        first_finding(findings) == findings[at],
    decreases findings.len(),
{
    let front = findings.drop_last();
    if at == findings.len() - 1 {
        lemma_first_finding_none(front);
        assert forall|i: int| 0 <= i < front.len() implies front[i] is None by {
            assert(front[i] == findings[i]);
        }
    } else {
        assert(front[at] == findings[at]);
        assert forall|i: int| 0 <= i < at implies front[i] is None by {
            assert(front[i] == findings[i]);
        }
        lemma_first_finding_at(front, at);
    }
}

} // verus!
