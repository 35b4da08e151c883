use vstd::prelude::*;

verus! {

/// Whether a table, whose column names are given, has a column of the wanted name.
pub fn has_column(columns: &Vec<String>, wanted: &String) -> (found: bool)
    ensures
        found == exists|i: int| 0 <= i < columns@.len() && #[trigger] columns@[i]@ == wanted@,
{
    let mut i: usize = 0;
    while i < columns.len()
        invariant
            i <= columns@.len(),
            forall|j: int| 0 <= j < i ==> #[trigger] columns@[j]@ != wanted@,
        decreases columns.len() - i,
    {
        if columns[i] == *wanted {
            return true;
        }
        i = i + 1;
    }
    false
}

} // verus!
