use vstd::prelude::*;

verus! {

/// Adds two numbers, provided the sum stays within the machine range.
pub fn add(a: i32, b: i32) -> (sum: i32)
    requires
        i32::MIN <= a + b <= i32::MAX,
    ensures
        sum == a + b,
{
    a + b
}

/// Adds one to the number given.
pub fn add_one(x: i32) -> (answer: i32)
    requires
        x < i32::MAX,
    ensures
        answer == x + 1,
{
    x + 1
}

/// Adds two to the number given.
pub fn add_two(x: i32) -> (answer: i32)
    requires
        x + 2 <= i32::MAX,
    ensures
        answer == x + 2,
{
    x + 2
}

/// Doubles the argument, provided the result stays within the machine range.
pub fn compile_time_fn(x: u32) -> (doubled: u32)
    requires
        2 * x <= u32::MAX,
    ensures
        doubled == 2 * x,
{
    x * 2
}

} // verus!
