//! A stand-in request type and a calculator with fixed costs, for trying the
//! registry out.

use crate::calc::WriteCalculator;
use crate::data::ReadItem;
use vstd::prelude::*;

verus! {

pub struct MockInsertRequest;

pub struct CalcImpl;

impl WriteCalculator<MockInsertRequest> for CalcImpl {
    open spec fn cost(&self, value: &MockInsertRequest) -> u64 {
        1024
    }

    fn calc(&self, _value: &MockInsertRequest) -> (magnitude: u64) {
        1024
    }
}

impl WriteCalculator<String> for CalcImpl {
    open spec fn cost(&self, value: &String) -> u64 {
        10240
    }

    fn calc(&self, _value: &String) -> (magnitude: u64) {
        1024 * 10
    }
}

impl WriteCalculator<ReadItem> for CalcImpl {
    open spec fn cost(&self, value: &ReadItem) -> u64 {
        102400
    }

    fn calc(&self, _value: &ReadItem) -> (magnitude: u64) {
        1024 * 100
    }
}

} // verus!
