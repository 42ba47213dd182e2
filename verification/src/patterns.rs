use crate::seed::Pattern;
use vstd::prelude::*;

verus! {

/// Clamps raw table bytes into the valid intensity range (hundredths), so
/// that a table embedded as plain bytes always yields a well-formed
/// pattern; entries that are already valid pass through unchanged.
fn table_cells(raw: &[u8]) -> (cells: Vec<u8>)
    ensures
        cells@.len() == raw@.len(),
        forall|i: int| 0 <= i < raw@.len() ==> cells@[i] == (if raw@[i] <= 100 { raw@[i] } else { 100u8 }),
        (forall|i: int| 0 <= i < raw@.len() ==> raw@[i] <= 100) ==> cells@ == raw@,
{
    let mut cells: Vec<u8> = Vec::new();
    let n = raw.len();
    let mut i: usize = 0;
    while i < n
        invariant
            n == raw@.len(),
            i <= n,
            cells@.len() == i,
            forall|k: int| 0 <= k < i ==> cells@[k] == (if raw@[k] <= 100 { raw@[k] } else { 100u8 }),
        decreases n - i,
    {
        let v = raw[i];
        if v <= 100 {
            cells.push(v);
        } else {
            cells.push(100);
        }
        i = i + 1;
    }
    proof {
        if forall|i2: int| 0 <= i2 < raw@.len() ==> raw@[i2] <= 100 {
            assert(cells@ =~= raw@);
        }
    }
    cells
}

/// The embedded analog seed pattern used by the first Lenia-style rule
/// variant: a 20 x 20 table of intensities in hundredths, authored top-down.
pub fn orbium_pattern() -> (p: Pattern)
    ensures
        p.wf(),
        p.width == 20,
        p.height == 20,
{
    let table: [u8; 400] = [
        0, 0, 0, 0, 0, 0, 10, 14, 10, 0, 0, 3, 3, 0, 0, 30, 0, 0, 0, 0,
        0, 0, 0, 0, 0, 8, 24, 30, 30, 18, 14, 15, 16, 15, 9, 20, 0, 0, 0, 0,
        0, 0, 0, 0, 0, 15, 34, 44, 46, 38, 18, 14, 11, 13, 19, 18, 45, 0, 0, 0,
        0, 0, 0, 0, 6, 13, 39, 50, 50, 37, 6, 0, 0, 0, 2, 16, 68, 0, 0, 0,
        0, 0, 0, 11, 17, 17, 33, 40, 38, 28, 14, 0, 0, 0, 0, 0, 18, 42, 0, 0,
        0, 0, 9, 18, 13, 6, 8, 26, 32, 32, 27, 0, 0, 0, 0, 0, 0, 82, 0, 0,
        27, 0, 16, 12, 0, 0, 0, 25, 38, 44, 45, 34, 0, 0, 0, 0, 0, 22, 17, 0,
        0, 7, 20, 2, 0, 0, 0, 31, 48, 57, 60, 57, 0, 0, 0, 0, 0, 0, 49, 0,
        0, 59, 19, 0, 0, 0, 0, 20, 57, 69, 76, 76, 49, 0, 0, 0, 0, 0, 36, 0,
        0, 58, 19, 0, 0, 0, 0, 0, 67, 83, 90, 92, 87, 12, 0, 0, 0, 0, 22, 7,
        0, 0, 46, 0, 0, 0, 0, 0, 70, 93, 100, 100, 100, 61, 0, 0, 0, 0, 18, 11,
        0, 0, 82, 0, 0, 0, 0, 0, 47, 100, 100, 98, 100, 96, 27, 0, 0, 0, 19, 10,
        0, 0, 46, 0, 0, 0, 0, 0, 25, 100, 100, 84, 92, 97, 54, 14, 4, 10, 21, 5,
        0, 0, 0, 40, 0, 0, 0, 0, 9, 80, 100, 82, 80, 85, 63, 31, 18, 19, 20, 1,
        0, 0, 0, 36, 10, 0, 0, 0, 5, 54, 86, 79, 74, 72, 60, 39, 28, 24, 13, 0,
        0, 0, 0, 1, 30, 7, 0, 0, 8, 36, 64, 70, 64, 60, 51, 39, 29, 19, 4, 0,
        0, 0, 0, 0, 10, 24, 14, 10, 15, 29, 45, 53, 52, 46, 40, 31, 21, 8, 0, 0,
        0, 0, 0, 0, 0, 8, 21, 21, 22, 29, 36, 39, 37, 33, 26, 18, 9, 0, 0, 0,
        0, 0, 0, 0, 0, 0, 3, 13, 19, 22, 24, 24, 23, 18, 13, 5, 0, 0, 0, 0,
        0, 0, 0, 0, 0, 0, 0, 0, 2, 6, 8, 9, 7, 5, 1, 0, 0, 0, 0, 0,
    ];
    let cells = table_cells(table.as_slice());
    Pattern::new(20, 20, cells)
}

/// The embedded analog seed pattern used by the second Lenia-style rule
/// variant: a 55 x 51 table of intensities in hundredths, authored top-down.
#[verifier::rlimit(100)]
pub fn twin_pattern() -> (p: Pattern)
    ensures
        p.wf(),
        p.width == 55,
        p.height == 51,
{
    let table: [u8; 2805] = [
        0, 0, 0, 0, 0, 0, 0, 0, 0, 0, 0, 0, 0, 0, 0, 0, 0, 0, 0, 0, 0, 0, 0, 0, 0, 0, 0, 0, 0, 0, 0, 0, 0, 0, 0, 0, 0, 1, 2, 3, 4, 4, 4, 3, 2, 0, 0, 0, 0, 0, 0, 0, 0, 0, 0,
        0, 0, 0, 0, 0, 0, 0, 0, 0, 0, 0, 0, 0, 0, 0, 0, 0, 0, 0, 0, 0, 0, 0, 0, 0, 0, 0, 0, 0, 0, 0, 0, 0, 0, 0, 4, 10, 16, 20, 23, 25, 24, 21, 18, 14, 10, 7, 3, 0, 0, 0, 0, 0, 0, 0,
        0, 0, 0, 0, 0, 0, 0, 0, 0, 0, 0, 0, 0, 0, 0, 0, 0, 0, 0, 0, 0, 0, 0, 0, 0, 0, 0, 0, 0, 0, 0, 0, 0, 1, 9, 20, 33, 44, 52, 56, 58, 55, 51, 44, 37, 30, 23, 16, 8, 1, 0, 0, 0, 0, 0,
        0, 0, 0, 0, 0, 0, 0, 0, 0, 0, 0, 0, 0, 0, 0, 0, 0, 0, 0, 0, 0, 0, 0, 0, 0, 0, 0, 0, 0, 0, 0, 0, 0, 13, 29, 45, 60, 75, 85, 90, 91, 88, 82, 74, 64, 55, 46, 36, 25, 12, 3, 0, 0, 0, 0,
        0, 0, 0, 0, 0, 0, 0, 0, 0, 0, 0, 0, 0, 0, 0, 0, 0, 0, 0, 0, 0, 0, 0, 0, 0, 0, 0, 0, 0, 0, 0, 0, 14, 38, 60, 78, 93, 100, 100, 100, 100, 100, 100, 99, 89, 78, 67, 56, 44, 30, 15, 4, 0, 0, 0,
        0, 0, 0, 0, 0, 0, 0, 0, 0, 0, 0, 0, 0, 0, 0, 0, 0, 0, 0, 0, 0, 0, 0, 0, 0, 0, 0, 0, 0, 0, 0, 8, 39, 74, 100, 100, 100, 100, 100, 100, 100, 100, 100, 100, 100, 98, 85, 74, 62, 47, 30, 14, 3, 0, 0,
        0, 0, 0, 0, 0, 0, 0, 0, 0, 0, 0, 0, 0, 0, 0, 0, 0, 0, 0, 0, 0, 0, 0, 0, 0, 0, 0, 0, 0, 0, 0, 32, 76, 100, 100, 100, 100, 100, 100, 100, 100, 100, 100, 100, 100, 100, 100, 88, 75, 61, 45, 27, 11, 1, 0,
        0, 0, 0, 0, 0, 0, 0, 0, 0, 0, 0, 0, 0, 0, 0, 0, 0, 0, 0, 0, 0, 0, 0, 0, 0, 0, 0, 0, 0, 0, 35, 83, 100, 100, 100, 100, 100, 100, 100, 100, 100, 100, 100, 100, 100, 100, 100, 100, 88, 73, 57, 38, 19, 5, 0,
        0, 0, 0, 0, 0, 0, 0, 0, 0, 0, 0, 0, 0, 0, 0, 0, 0, 0, 0, 0, 0, 0, 0, 0, 0, 0, 0, 0, 0, 50, 100, 100, 100, 100, 100, 100, 100, 99, 100, 100, 100, 100, 99, 100, 100, 100, 100, 100, 100, 85, 67, 47, 27, 11, 1,
        0, 0, 0, 0, 0, 0, 0, 0, 0, 0, 0, 0, 0, 0, 0, 0, 0, 0, 0, 0, 0, 0, 0, 0, 0, 0, 0, 0, 55, 100, 100, 100, 100, 100, 100, 100, 93, 83, 79, 84, 88, 89, 90, 93, 98, 100, 100, 100, 100, 98, 79, 57, 34, 15, 3,
        0, 0, 0, 0, 0, 0, 0, 0, 0, 0, 0, 0, 0, 0, 0, 0, 0, 0, 0, 0, 0, 0, 0, 0, 0, 0, 0, 47, 100, 100, 100, 100, 100, 100, 100, 90, 72, 54, 44, 48, 60, 70, 76, 82, 91, 99, 100, 100, 100, 100, 91, 67, 41, 19, 5,
        0, 0, 0, 0, 0, 0, 0, 0, 0, 0, 0, 0, 0, 0, 0, 0, 0, 0, 0, 0, 0, 0, 0, 0, 0, 0, 27, 99, 100, 100, 100, 100, 90, 71, 65, 55, 38, 20, 14, 21, 36, 52, 64, 73, 84, 95, 100, 100, 100, 100, 100, 78, 49, 24, 7,
        0, 0, 0, 0, 0, 0, 0, 0, 0, 0, 0, 0, 0, 0, 0, 0, 0, 0, 0, 0, 0, 0, 0, 0, 0, 14, 63, 96, 100, 100, 100, 84, 17, 0, 0, 0, 0, 0, 0, 0, 13, 35, 51, 64, 77, 91, 99, 100, 100, 100, 100, 88, 58, 29, 9,
        0, 0, 0, 0, 0, 0, 0, 0, 0, 0, 0, 0, 0, 0, 0, 0, 0, 0, 0, 0, 0, 0, 0, 0, 7, 38, 72, 95, 100, 100, 100, 22, 0, 0, 0, 0, 0, 0, 0, 0, 0, 11, 33, 50, 67, 86, 99, 100, 100, 100, 100, 95, 64, 33, 10,
        0, 0, 0, 0, 0, 0, 0, 0, 0, 0, 0, 0, 0, 0, 0, 0, 0, 0, 0, 0, 0, 0, 0, 32, 49, 71, 93, 100, 100, 100, 56, 0, 0, 0, 0, 0, 0, 0, 0, 0, 0, 0, 10, 31, 52, 79, 98, 100, 100, 100, 100, 98, 67, 35, 11,
        0, 0, 0, 0, 0, 0, 0, 0, 0, 0, 0, 0, 0, 0, 0, 0, 0, 0, 0, 0, 0, 0, 1, 60, 83, 98, 100, 100, 68, 0, 0, 0, 0, 0, 0, 0, 0, 0, 0, 0, 0, 0, 0, 15, 38, 71, 97, 100, 100, 100, 100, 97, 67, 35, 11,
        0, 0, 0, 0, 0, 0, 0, 0, 0, 0, 0, 0, 0, 0, 0, 0, 0, 0, 0, 0, 0, 0, 0, 51, 96, 100, 100, 18, 0, 0, 0, 0, 0, 0, 0, 0, 0, 0, 0, 0, 0, 0, 0, 9, 34, 68, 95, 100, 100, 100, 100, 91, 61, 32, 10,
        0, 0, 0, 0, 0, 0, 0, 0, 0, 0, 0, 0, 0, 0, 0, 0, 0, 0, 0, 0, 0, 0, 13, 56, 99, 100, 100, 0, 0, 0, 0, 0, 0, 0, 0, 0, 0, 0, 0, 0, 0, 0, 0, 17, 45, 76, 96, 100, 100, 100, 100, 82, 52, 26, 7,
        0, 0, 0, 0, 0, 0, 0, 0, 0, 0, 0, 0, 0, 0, 0, 0, 0, 0, 0, 0, 0, 33, 70, 94, 100, 100, 44, 0, 0, 0, 0, 0, 0, 0, 0, 0, 0, 0, 0, 0, 0, 0, 0, 33, 68, 91, 99, 100, 100, 100, 100, 71, 42, 19, 3,
        0, 0, 0, 0, 0, 0, 0, 0, 0, 0, 0, 0, 0, 0, 0, 0, 0, 0, 0, 0, 53, 89, 100, 100, 100, 80, 43, 4, 0, 0, 0, 0, 0, 0, 0, 0, 0, 0, 0, 0, 0, 0, 0, 47, 86, 100, 100, 100, 100, 100, 95, 58, 32, 12, 0,
        0, 0, 0, 0, 0, 0, 0, 0, 0, 0, 0, 0, 0, 0, 0, 0, 0, 0, 0, 0, 77, 99, 100, 97, 58, 41, 33, 18, 0, 0, 0, 0, 0, 0, 0, 0, 0, 0, 0, 0, 0, 0, 0, 54, 95, 100, 100, 100, 100, 100, 80, 44, 21, 6, 0,
        0, 0, 0, 0, 0, 0, 0, 0, 0, 0, 0, 0, 0, 0, 0, 0, 0, 0, 0, 39, 83, 100, 100, 55, 11, 5, 15, 22, 6, 0, 0, 0, 0, 0, 0, 0, 0, 0, 0, 0, 0, 0, 0, 58, 99, 100, 100, 100, 100, 100, 59, 29, 11, 1, 0,
        0, 0, 0, 0, 0, 0, 0, 0, 0, 0, 0, 0, 0, 0, 0, 0, 4, 55, 81, 86, 97, 100, 100, 50, 0, 0, 1, 9, 3, 0, 0, 0, 0, 0, 0, 0, 0, 0, 0, 0, 0, 0, 26, 78, 100, 100, 100, 100, 100, 66, 35, 13, 3, 0, 0,
        0, 0, 0, 0, 0, 0, 0, 0, 0, 0, 0, 0, 0, 0, 0, 0, 33, 100, 100, 100, 100, 100, 100, 93, 11, 0, 0, 0, 0, 0, 0, 0, 0, 0, 0, 0, 0, 0, 0, 0, 23, 73, 95, 100, 100, 100, 100, 100, 62, 35, 12, 0, 0, 0, 0,
        0, 0, 0, 0, 0, 0, 0, 0, 0, 0, 0, 0, 0, 0, 0, 0, 51, 100, 100, 100, 100, 100, 100, 100, 72, 0, 0, 0, 0, 0, 0, 0, 0, 0, 0, 0, 0, 0, 0, 0, 100, 100, 100, 100, 100, 100, 100, 56, 25, 9, 0, 0, 0, 0, 0,
        0, 0, 0, 0, 0, 0, 0, 0, 0, 0, 0, 0, 0, 0, 12, 38, 100, 100, 100, 66, 8, 55, 100, 100, 100, 3, 0, 0, 0, 0, 0, 0, 0, 0, 0, 0, 0, 0, 0, 35, 100, 100, 100, 100, 100, 100, 67, 12, 0, 0, 0, 0, 0, 0, 0,
        0, 0, 0, 0, 0, 0, 0, 0, 0, 0, 0, 0, 60, 100, 100, 100, 100, 100, 100, 49, 0, 0, 87, 100, 88, 0, 0, 0, 0, 0, 0, 0, 0, 0, 0, 0, 0, 0, 0, 100, 100, 100, 100, 100, 100, 70, 7, 0, 0, 0, 0, 0, 0, 0, 0,
        0, 0, 0, 0, 0, 0, 0, 0, 0, 4, 21, 48, 100, 100, 100, 100, 100, 100, 100, 100, 0, 0, 4, 42, 26, 0, 0, 0, 0, 0, 0, 0, 0, 0, 12, 21, 34, 58, 100, 100, 100, 99, 97, 99, 46, 0, 0, 0, 0, 0, 0, 0, 0, 0, 0,
        0, 0, 0, 0, 0, 0, 0, 0, 0, 50, 100, 100, 100, 100, 96, 0, 31, 100, 100, 100, 53, 0, 0, 0, 0, 0, 0, 0, 0, 20, 21, 0, 0, 0, 27, 100, 100, 100, 100, 100, 100, 87, 52, 1, 0, 0, 0, 0, 0, 0, 0, 0, 0, 0, 0,
        0, 0, 0, 0, 0, 0, 0, 0, 84, 100, 100, 100, 100, 100, 0, 0, 0, 83, 100, 100, 52, 0, 0, 0, 0, 0, 0, 0, 26, 82, 59, 2, 0, 0, 46, 100, 100, 100, 100, 100, 90, 55, 0, 0, 0, 0, 0, 0, 0, 0, 0, 0, 0, 0, 0,
        0, 0, 0, 0, 0, 0, 0, 39, 99, 100, 100, 100, 100, 78, 4, 0, 0, 0, 93, 92, 0, 0, 0, 0, 0, 0, 0, 0, 69, 100, 100, 36, 0, 0, 100, 100, 65, 66, 97, 87, 54, 0, 0, 0, 0, 0, 0, 0, 0, 0, 0, 0, 0, 0, 0,
        0, 0, 0, 0, 55, 75, 59, 74, 100, 100, 0, 0, 75, 71, 18, 0, 0, 0, 0, 0, 0, 0, 0, 0, 0, 29, 0, 0, 45, 100, 100, 100, 100, 100, 100, 100, 47, 39, 71, 25, 0, 0, 0, 0, 0, 0, 0, 0, 0, 0, 0, 0, 0, 0, 0,
        0, 0, 0, 0, 69, 81, 80, 92, 100, 13, 0, 0, 13, 94, 58, 0, 0, 0, 0, 0, 0, 0, 0, 0, 100, 100, 34, 0, 4, 100, 100, 100, 100, 100, 100, 100, 24, 0, 0, 0, 0, 0, 0, 0, 0, 0, 0, 0, 0, 0, 0, 0, 0, 0, 0,
        0, 0, 0, 0, 63, 85, 90, 98, 100, 9, 0, 0, 2, 100, 64, 0, 0, 0, 0, 0, 0, 0, 0, 59, 100, 100, 84, 0, 0, 100, 100, 100, 100, 100, 100, 64, 0, 0, 0, 0, 0, 0, 0, 0, 0, 0, 0, 0, 0, 0, 0, 0, 0, 0, 0,
        0, 0, 0, 0, 64, 65, 67, 100, 100, 21, 1, 0, 4, 2, 0, 0, 0, 0, 0, 0, 0, 0, 0, 69, 100, 100, 100, 29, 37, 100, 100, 60, 63, 100, 84, 0, 0, 0, 0, 0, 0, 0, 0, 0, 0, 0, 0, 0, 0, 0, 0, 0, 0, 0, 0,
        0, 0, 0, 0, 44, 73, 73, 85, 100, 97, 23, 5, 0, 0, 0, 0, 0, 0, 0, 0, 6, 0, 0, 0, 97, 100, 100, 100, 100, 100, 100, 33, 24, 67, 0, 0, 0, 0, 0, 0, 0, 0, 0, 0, 0, 0, 0, 0, 0, 0, 0, 0, 0, 0, 0,
        0, 0, 0, 12, 55, 90, 90, 100, 100, 100, 43, 4, 0, 0, 0, 0, 0, 0, 0, 31, 54, 0, 0, 0, 88, 100, 100, 100, 100, 100, 100, 0, 0, 0, 0, 0, 0, 0, 0, 0, 0, 0, 0, 0, 0, 0, 0, 0, 0, 0, 0, 0, 0, 0, 0,
        0, 0, 0, 29, 71, 100, 100, 100, 100, 79, 28, 0, 0, 0, 0, 0, 0, 0, 0, 40, 77, 54, 0, 0, 87, 100, 100, 100, 100, 100, 31, 0, 0, 0, 0, 0, 0, 0, 0, 0, 0, 0, 0, 0, 0, 0, 0, 0, 0, 0, 0, 0, 0, 0, 0,
        0, 16, 27, 41, 72, 99, 100, 100, 82, 42, 9, 0, 0, 0, 0, 0, 0, 0, 0, 10, 55, 58, 58, 77, 99, 100, 100, 100, 100, 63, 0, 0, 0, 0, 0, 0, 0, 0, 0, 0, 0, 0, 0, 0, 0, 0, 0, 0, 0, 0, 0, 0, 0, 0, 0,
        31, 48, 45, 46, 63, 88, 100, 83, 59, 28, 6, 0, 0, 0, 0, 0, 0, 0, 0, 0, 32, 70, 95, 100, 100, 100, 100, 70, 58, 12, 4, 0, 0, 0, 0, 0, 0, 0, 0, 0, 0, 0, 0, 0, 0, 0, 0, 0, 0, 0, 0, 0, 0, 0, 0,
        23, 54, 53, 48, 57, 59, 65, 63, 55, 35, 13, 3, 2, 9, 74, 100, 9, 0, 0, 0, 32, 86, 100, 100, 100, 100, 57, 44, 31, 16, 1, 0, 0, 0, 0, 0, 0, 0, 0, 0, 0, 0, 0, 0, 0, 0, 0, 0, 0, 0, 0, 0, 0, 0, 0,
        0, 31, 45, 31, 18, 28, 39, 47, 54, 50, 35, 20, 16, 28, 75, 100, 42, 1, 0, 0, 60, 100, 100, 100, 100, 51, 29, 9, 0, 0, 0, 0, 0, 0, 0, 0, 0, 0, 0, 0, 0, 0, 0, 0, 0, 0, 0, 0, 0, 0, 0, 0, 0, 0, 0,
        0, 0, 0, 0, 0, 14, 30, 40, 54, 71, 74, 65, 49, 35, 27, 47, 60, 60, 72, 98, 100, 100, 100, 100, 65, 33, 0, 0, 0, 0, 0, 0, 0, 0, 0, 0, 0, 0, 0, 0, 0, 0, 0, 0, 0, 0, 0, 0, 0, 0, 0, 0, 0, 0, 0,
        0, 0, 0, 0, 0, 6, 33, 53, 69, 94, 99, 100, 84, 41, 16, 15, 96, 100, 100, 100, 100, 100, 100, 100, 73, 13, 0, 0, 0, 0, 0, 0, 0, 0, 0, 0, 0, 0, 0, 0, 0, 0, 0, 0, 0, 0, 0, 0, 0, 0, 0, 0, 0, 0, 0,
        0, 0, 0, 0, 0, 0, 42, 86, 98, 98, 99, 100, 94, 63, 32, 62, 100, 100, 100, 100, 100, 100, 100, 65, 23, 0, 0, 0, 0, 0, 0, 0, 0, 0, 0, 0, 0, 0, 0, 0, 0, 0, 0, 0, 0, 0, 0, 0, 0, 0, 0, 0, 0, 0, 0,
        0, 0, 0, 0, 0, 7, 62, 95, 100, 100, 99, 98, 99, 100, 100, 100, 100, 100, 100, 100, 98, 14, 0, 0, 0, 0, 0, 0, 0, 0, 0, 0, 0, 0, 0, 0, 0, 0, 0, 0, 0, 0, 0, 0, 0, 0, 0, 0, 0, 0, 0, 0, 0, 0, 0,
        0, 0, 0, 0, 0, 3, 46, 89, 100, 100, 97, 83, 75, 81, 94, 100, 100, 100, 100, 99, 3, 0, 0, 0, 0, 0, 0, 0, 0, 0, 0, 0, 0, 0, 0, 0, 0, 0, 0, 0, 0, 0, 0, 0, 0, 0, 0, 0, 0, 0, 0, 0, 0, 0, 0,
        0, 0, 0, 0, 0, 0, 14, 57, 88, 93, 81, 58, 45, 48, 64, 86, 97, 99, 99, 42, 0, 0, 0, 0, 0, 0, 0, 0, 0, 0, 0, 0, 0, 0, 0, 0, 0, 0, 0, 0, 0, 0, 0, 0, 0, 0, 0, 0, 0, 0, 0, 0, 0, 0, 0,
        0, 0, 0, 0, 0, 0, 0, 0, 23, 45, 47, 39, 29, 19, 20, 46, 28, 3, 0, 0, 0, 0, 0, 0, 0, 0, 0, 0, 0, 0, 0, 0, 0, 0, 0, 0, 0, 0, 0, 0, 0, 0, 0, 0, 0, 0, 0, 0, 0, 0, 0, 0, 0, 0, 0,
        0, 0, 0, 0, 0, 0, 0, 0, 0, 0, 8, 22, 24, 15, 0, 0, 0, 0, 0, 0, 0, 0, 0, 0, 0, 0, 0, 0, 0, 0, 0, 0, 0, 0, 0, 0, 0, 0, 0, 0, 0, 0, 0, 0, 0, 0, 0, 0, 0, 0, 0, 0, 0, 0, 0,
        0, 0, 0, 0, 0, 0, 0, 0, 0, 0, 0, 7, 22, 14, 0, 0, 0, 0, 0, 0, 0, 0, 0, 0, 0, 0, 0, 0, 0, 0, 0, 0, 0, 0, 0, 0, 0, 0, 0, 0, 0, 0, 0, 0, 0, 0, 0, 0, 0, 0, 0, 0, 0, 0, 0,
    ];
    let cells = table_cells(table.as_slice());
    Pattern::new(55, 51, cells)
}

/// The fallback pattern for analog rule variants without an embedded table:
/// a single dead cell, so the grid seeds fully dead.
pub fn blank_pattern() -> (p: Pattern)
    ensures
        p.wf(),
        p.width == 1,
        p.height == 1,
        p.cells@ == seq![0u8],
{
    let cells: Vec<u8> = vec![0];
    proof {
        assert(cells@ =~= seq![0u8]);
    }
    Pattern::new(1, 1, cells)
}

/// How a rule variant seeds the initial state: discrete variants draw one
/// random sample per cell, analog variants stamp their embedded pattern.
#[derive(Debug)]
pub enum SeedStrategy {
    /// One independent uniform sample per cell, alive below the threshold.
    Stochastic,
    /// Stamp this pattern centered in the grid.
    Pattern(Pattern),
}

/// Selects the seed strategy that a rule-variant selector implies: the
/// discrete variants (selectors below 3) seed stochastically; the analog
/// variants each stamp their own table, with a blank single-cell fallback
/// for selectors that have none.
pub fn seed_strategy_for_kernel(kernel: i32) -> (s: SeedStrategy)
    ensures
        kernel < 3 ==> s is Stochastic,
        kernel >= 3 ==> s is Pattern,
        kernel >= 3 ==> (s matches SeedStrategy::Pattern(p) && p.wf()),
        kernel == 3 ==> (s matches SeedStrategy::Pattern(p) && p.width == 20 && p.height == 20),
        kernel == 4 ==> (s matches SeedStrategy::Pattern(p) && p.width == 55 && p.height == 51),
        kernel >= 5 ==> (s matches SeedStrategy::Pattern(p) && p.width == 1 && p.height == 1
            && p.cells@ == seq![0u8]),
{
    if kernel < 3 {
        SeedStrategy::Stochastic
    } else if kernel == 3 {
        SeedStrategy::Pattern(orbium_pattern())
    } else if kernel == 4 {
        SeedStrategy::Pattern(twin_pattern())
    } else {
        SeedStrategy::Pattern(blank_pattern())
    }
}

} // verus!
