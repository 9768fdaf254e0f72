//! Producing what the inclusion lists of a slot are made of.

use vstd::prelude::*;

use crate::types::{
    DependentRoot, InclusionListData, InclusionListDuty, InclusionListTransactions, Slot,
};

verus! {

/// The production of a slot's inclusion list data. It ends with the duties to
/// sign for and the data, with `Ok(None)` where there is nothing to produce, or
/// with the account of a failed fetch.
pub enum ProduceInclusionListData {
    /// Waits for the duties at the slot.
    LookUpDuties(LookUpDuties),
    /// Waits for the beacon nodes' transactions for the slot.
    FetchTransactions(FetchTransactions),
    /// Over.
    Done(Result<Option<(Vec<InclusionListDuty>, InclusionListData)>, String>),
}

/// The local validators' duties at `slot` are to be looked up.
pub struct LookUpDuties {
    pub slot: Slot,
}

/// The transactions for `slot` are to be fetched.
pub struct FetchTransactions {
    pub slot: Slot,
    pub dependent_root: DependentRoot,
    pub duties: Vec<InclusionListDuty>,
}

impl LookUpDuties {
    /// What follows the duties: nothing where they are not known yet or no local
    /// validator has one, the fetch otherwise.
    pub open spec fn next(
        self,
        found: Option<(DependentRoot, Vec<InclusionListDuty>)>,
    ) -> ProduceInclusionListData {
        match found {
            None => ProduceInclusionListData::Done(Ok(None)),
            Some((dependent_root, duties)) => if duties@.len() == 0 {
                ProduceInclusionListData::Done(Ok(None))
            } else {
                ProduceInclusionListData::FetchTransactions(
                    FetchTransactions { slot: self.slot, dependent_root, duties },
                )
            },
        }
    }

    /// Takes the duties at the slot with the root that they depend on, `None`
    /// where they have not been downloaded.
    pub fn resume(self, found: Option<(DependentRoot, Vec<InclusionListDuty>)>) -> (task:
        ProduceInclusionListData)
        ensures
            task == self.next(found),
            found is None ==> task == ProduceInclusionListData::Done(Ok(None)),
            found matches Some((dependent_root, duties)) ==> task == if duties@.len() == 0 {
                ProduceInclusionListData::Done(Ok(None))
            } else {
                ProduceInclusionListData::FetchTransactions(
                    FetchTransactions { slot: self.slot, dependent_root, duties },
                )
            },
    {
        match found {
            None => ProduceInclusionListData::Done(Ok(None)),
            Some((dependent_root, duties)) => {
                if duties.len() == 0 {
                    ProduceInclusionListData::Done(Ok(None))
                } else {
                    ProduceInclusionListData::FetchTransactions(
                        FetchTransactions { slot: self.slot, dependent_root, duties },
                    )
                }
            },
        }
    }
}

impl FetchTransactions {
    /// What follows the beacon nodes' answer: the duties and the data, or the
    /// account of the failure.
    pub open spec fn next(
        self,
        reply: Result<InclusionListTransactions, String>,
    ) -> ProduceInclusionListData {
        ProduceInclusionListData::Done(
            match reply {
                Ok(transactions) => Ok(
                    Some(
                        (
                            self.duties,
                            InclusionListData { dependent_root: self.dependent_root, transactions },
                        ),
                    ),
                ),
                Err(e) => Err(e),
            },
        )
    }

    /// Takes the beacon nodes' answer.
    pub fn resume(self, reply: Result<InclusionListTransactions, String>) -> (task:
        ProduceInclusionListData)
        ensures
            task == self.next(reply),
            reply matches Ok(transactions) ==> task == ProduceInclusionListData::Done(
                Ok(
                    Some(
                        (
                            self.duties,
                            InclusionListData { dependent_root: self.dependent_root, transactions },
                        ),
                    ),
                ),
            ),
            reply matches Err(e) ==> task == ProduceInclusionListData::Done(Err(e)),
    {
        match reply {
            Ok(transactions) => {
                let data = InclusionListData { dependent_root: self.dependent_root, transactions };
                ProduceInclusionListData::Done(Ok(Some((self.duties, data))))
            },
            Err(e) => ProduceInclusionListData::Done(Err(e)),
        }
    }
}

} // verus!
