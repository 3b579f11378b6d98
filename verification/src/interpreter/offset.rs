//! Indentation of generated code.
use vstd::prelude::*;
use crate::text::push_char;

verus! {

/// An indentation level: four spaces per step.
pub struct Offset {
    pub tab: usize,
}

/// The spaces of `tab` indentation steps.
pub open spec fn indent(tab: nat) -> Seq<char> {
    Seq::new(4 * tab, |i: int| ' ')
}

/// One step deeper, staying at the deepest level that can be counted.
pub open spec fn deeper(tab: usize) -> usize {
    if tab < usize::MAX { (tab + 1) as usize } else { tab }
}

impl Offset {
    /// No indentation.
    pub fn new() -> (res: Self)
        ensures
            res.tab == 0,
    {
        Offset { tab: 0 }
    }

    /// One step deeper.
    pub fn inc(&self) -> (res: Self)
        requires
            self.tab < usize::MAX,
        ensures
            res.tab == self.tab + 1,
    {
        Offset { tab: self.tab + 1 }
    }

    /// One step deeper, where the depth can still be counted.
    pub fn deeper(&self) -> (res: Self)
        ensures
            res.tab == deeper(self.tab),
    {
        if self.tab < usize::MAX {
            Offset { tab: self.tab + 1 }
        } else {
            Offset { tab: self.tab }
        }
    }

    /// The spaces of this indentation.
    pub fn to_string(&self) -> (res: String)
        ensures
            res@ == indent(self.tab as nat),
    {
        let mut res = String::new();
        let mut i: usize = 0;
        assert(res@ =~= indent(0));
        while i < self.tab
            invariant
                i <= self.tab,
                res@ == indent(i as nat),
            decreases self.tab - i,
        {
            push_char(&mut res, ' ');
            push_char(&mut res, ' ');
            push_char(&mut res, ' ');
            push_char(&mut res, ' ');
            assert(res@ =~= indent((i + 1) as nat));
            i += 1;
        }
        res
    }

    /// A copy of this indentation.
    pub fn clone(&self) -> (res: Self)
        ensures
            res.tab == self.tab,
    {
        Offset { tab: self.tab }
    }
}

} // verus!
