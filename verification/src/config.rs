use vstd::prelude::*;

use crate::gs::TestDescription;
use crate::points::{PointQuantity, Points};
use crate::stage::compare_files::{CompareConfig, ComparesConfig};
use crate::stage::compile::CompileConfig;
use crate::stage::import_files::ImportConfig;
use crate::stage::run::RunConfig;
use crate::stage::valgrind::ValgrindConfig;
use crate::tid::TestId;

verus! {

/// The name of the per-test configuration file inside a test directory.
pub const TEST_CONFIG_NAME: &'static str = "config.yaml";

/// The kind of a test; every kind today compares outputs.
#[derive(Debug, Clone, Copy, PartialEq, Eq, Structural)]
pub enum TestType {
    Diff,
}

/// A named group of tests from the homework configuration.
#[derive(Debug, Clone)]
pub struct TestGroup {
    pub name: String,
    pub tests: Vec<TestId>,
}

/// The homework's configuration: the class, the homework's name, and its
/// named groups of tests.
#[derive(Debug, Clone)]
pub struct HwConfig {
    pub class: String,
    pub name: String,
    pub groups: Vec<TestGroup>,
}

/// One test's configuration: its metadata and the configuration of each
/// of its stages.
#[derive(Debug)]
pub struct TestConfig {
    pub description: TestDescription,
    pub test_type: TestType,
    pub compile: CompileConfig,
    pub run: RunConfig,
    pub compare_files: Option<ComparesConfig>,
    pub import_files: Option<ImportConfig>,
    pub valgrind: Option<ValgrindConfig>,
}

/// Why a test configuration was rejected.
#[derive(Debug, Clone, Copy, PartialEq, Eq, Structural)]
pub enum TestConfigValidationError {
    MixedPointQuantities,
    InvalidPointTotal { configured_total_points: Points },
}

/// Every deduction the configuration can charge, in order: the expected
/// exit code's worth, then each comparison's worth.
pub open spec fn configured_points(c: TestConfig) -> Seq<PointQuantity> {
    (match c.run.return_code {
        Some(rc) => seq![rc.points],
        None => Seq::<PointQuantity>::empty(),
    }) + (match c.compare_files {
        Some(cc) => cc.compares@.map_values(|cmp: CompareConfig| cmp.points),
        None => Seq::<PointQuantity>::empty(),
    })
}

/// Whether every deduction takes the test's whole worth.
pub open spec fn all_full(ps: Seq<PointQuantity>) -> bool {
    forall|j: int| 0 <= j < ps.len() ==> (#[trigger] ps[j])@ is None
}

/// Whether every deduction is a definite partial amount.
pub open spec fn none_full(ps: Seq<PointQuantity>) -> bool {
    forall|j: int| 0 <= j < ps.len() ==> (#[trigger] ps[j])@ is Some
}

/// The sum of the partial deductions, counting the full worth as nothing.
pub open spec fn partials_sum(ps: Seq<PointQuantity>) -> nat
    decreases ps.len(),
{
    if ps.len() == 0 {
        0
    } else {
        partials_sum(ps.drop_last()) + (match ps.last()@ {
            Some(p) => p,
            None => 0,
        })
    }
}

/// Whether a test configuration is accepted: its deductions must be
/// uniformly the full worth or uniformly partial, and partial deductions
/// must add up exactly to the test's total points.
pub open spec fn config_valid(c: TestConfig) -> Option<TestConfigValidationError> {
    let ps = configured_points(c);
    if !(all_full(ps) || none_full(ps)) {
        Some(TestConfigValidationError::MixedPointQuantities)
    } else if none_full(ps) && partials_sum(ps) != c.description.total_points@ {
        Some(
            TestConfigValidationError::InvalidPointTotal {
                configured_total_points: c.description.total_points,
            },
        )
    } else {
        None
    }
}

/// A prefix of the deductions never adds to more than all of them.
proof fn lemma_partials_sum_mono(ps: Seq<PointQuantity>, k: int)
    requires
        0 <= k <= ps.len(),
    ensures
        partials_sum(ps.take(k)) <= partials_sum(ps),
    decreases ps.len() - k,
{
    if k < ps.len() {
        lemma_partials_sum_mono(ps, k + 1);
        assert(ps.take(k + 1).drop_last() =~= ps.take(k));
        assert(ps.take(k + 1).last() == ps[k]);
    } else {
        assert(ps.take(k) =~= ps);
    }
}

impl TestConfig {
    /// Checks the configuration: deductions must be uniformly full or
    /// uniformly partial, and partial deductions must add up to the
    /// test's total points.
    pub fn validate(&self) -> (r: Result<(), TestConfigValidationError>)
        ensures
            match config_valid(*self) {
                Some(e) => r == Err::<(), TestConfigValidationError>(e),
                None => r == Ok::<(), TestConfigValidationError>(()),
            },
    {
        let mut ps: Vec<PointQuantity> = Vec::new();
        match &self.run.return_code {
            Some(rc) => {
                ps.push(rc.points);
            },
            None => {},
        }
        match &self.compare_files {
            Some(cc) => {
                let n = cc.compares.len();
                let mut i: usize = 0;
                while i < n
                    invariant
                        n == cc.compares@.len(),
                        0 <= i <= n,
                        ps@ == (match self.run.return_code {
                            Some(rc) => seq![rc.points],
                            None => Seq::<PointQuantity>::empty(),
                        }) + cc.compares@.take(i as int).map_values(
                            |cmp: CompareConfig| cmp.points,
                        ),
                    decreases n - i,
                {
                    let ghost before = ps@;
                    ps.push(cc.compares[i].points);
                    proof {
                        let f = |cmp: CompareConfig| cmp.points;
                        assert(cc.compares@.take(i + 1).drop_last() =~= cc.compares@.take(
                            i as int,
                        ));
                        assert(cc.compares@.take(i + 1).last() == cc.compares@[i as int]);
                        let head = match self.run.return_code {
                            Some(rc) => seq![rc.points],
                            None => Seq::<PointQuantity>::empty(),
                        };
                        let lhs = ps@;
                        let rhs = head + cc.compares@.take(i + 1).map_values(f);
                        assert(cc.compares@.take(i + 1).map_values(f).len() == i + 1);
                        assert(lhs.len() == rhs.len());
                        assert forall|k: int| 0 <= k < lhs.len() implies lhs[k] == rhs[k] by {
                            if k < lhs.len() - 1 {
                                assert(lhs[k] == before[k]);
                            } else {
                                assert(lhs[k] == cc.compares@[i as int].points);
                                assert(cc.compares@.take(i + 1).map_values(f)[k - head.len()]
                                    == f(cc.compares@.take(i + 1)[k - head.len()]));
                            }
                        }
                        assert(lhs =~= rhs);
                    }
                    i = i + 1;
                }
                proof {
                    assert(cc.compares@.take(n as int) =~= cc.compares@);
                }
            },
            None => {},
        }
        proof {
            assert(ps@ =~= configured_points(*self));
        }
        let n = ps.len();
        let mut saw_full = false;
        let mut saw_partial = false;
        let mut i: usize = 0;
        while i < n
            invariant
                n == ps@.len(),
                0 <= i <= n,
                saw_full == exists|j: int| 0 <= j < i && (#[trigger] ps@[j])@ is None,
                saw_partial == exists|j: int| 0 <= j < i && (#[trigger] ps@[j])@ is Some,
            decreases n - i,
        {
            if ps[i].is_full_points() {
                saw_full = true;
                proof {
                    assert((ps@[i as int])@ is None);
                }
            } else {
                saw_partial = true;
                proof {
                    assert((ps@[i as int])@ is Some);
                }
            }
            i = i + 1;
        }
        if saw_full && saw_partial {
            return Err(TestConfigValidationError::MixedPointQuantities);
        }
        proof {
            if !saw_full {
                assert forall|j: int| 0 <= j < ps@.len() implies (#[trigger] ps@[j])@ is Some by {
                    if ps@[j]@ is None {
                        assert(exists|k: int| 0 <= k < ps@.len() && (#[trigger] ps@[k])@ is None);
                    }
                }
            }
            if !saw_partial {
                assert forall|j: int| 0 <= j < ps@.len() implies (#[trigger] ps@[j])@ is None by {
                    if ps@[j]@ is Some {
                        assert(exists|k: int| 0 <= k < ps@.len() && (#[trigger] ps@[k])@ is Some);
                    }
                }
            }
        }
        if saw_full {
            // uniformly the full worth: nothing to add up
            return Ok(());
        }
        // all partial: their sum must be the total
        let mut total: u64 = 0;
        let mut i2: usize = 0;
        let configured = self.description.total_points.hundredths();
        proof {
            crate::points::lemma_points_bounded(self.description.total_points);
        }
        while i2 < n
            invariant
                n == ps@.len(),
                0 <= i2 <= n,
                ps@ == configured_points(*self),
                none_full(ps@),
                total == partials_sum(ps@.take(i2 as int)),
                configured == self.description.total_points@,
                configured <= u64::MAX,
            decreases n - i2,
        {
            proof {
                assert(ps@.take(i2 + 1).drop_last() =~= ps@.take(i2 as int));
                assert(ps@.take(i2 + 1).last() == ps@[i2 as int]);
            }
            let p = match &ps[i2] {
                PointQuantity::Partial(q) => q.hundredths(),
                PointQuantity::FullPoints => 0,
            };
            if p > u64::MAX - total {
                // the sum cannot equal any representable total
                proof {
                    lemma_partials_sum_mono(ps@, i2 + 1);
                }
                return Err(
                    TestConfigValidationError::InvalidPointTotal {
                        configured_total_points: self.description.total_points,
                    },
                );
            }
            total = total + p;
            i2 = i2 + 1;
        }
        proof {
            assert(ps@.take(n as int) =~= ps@);
        }
        if total == configured {
            Ok(())
        } else {
            Err(
                TestConfigValidationError::InvalidPointTotal {
                    configured_total_points: self.description.total_points,
                },
            )
        }
    }
}

} // verus!
