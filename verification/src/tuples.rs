//! Tuples of up to sixteen fields: the children of each field in turn.

use crate::context::{Context, Tally};
use crate::measure::SizeOf;
use vstd::prelude::*;

verus! {

impl<A: SizeOf> SizeOf for (A,) {
    open spec fn children_charged(&self, before: Tally, after: Tally) -> bool {
        self.0.children_charged(before, after)
    }

    fn size_of_children(&self, context: &mut Context) {
        self.0.size_of_children(context);
    }
}

impl<A: SizeOf, B: SizeOf> SizeOf for (A, B) {
    open spec fn children_charged(&self, before: Tally, after: Tally) -> bool {
        exists|at_1: Tally|
            {
                &&& #[trigger] self.0.children_charged(before, at_1)
                &&& at_1.extends(before)
                &&& self.1.children_charged(at_1, after)
            }
    }

    fn size_of_children(&self, context: &mut Context) {
        self.0.size_of_children(context);
        self.1.size_of_children(context);
    }
}

impl<A: SizeOf, B: SizeOf, C: SizeOf> SizeOf for (A, B, C) {
    open spec fn children_charged(&self, before: Tally, after: Tally) -> bool {
        exists|at_1: Tally, at_2: Tally|
            {
                &&& #[trigger] self.0.children_charged(before, at_1)
                &&& at_1.extends(before)
                &&& #[trigger] self.1.children_charged(at_1, at_2)
                &&& at_2.extends(at_1)
                &&& self.2.children_charged(at_2, after)
            }
    }

    fn size_of_children(&self, context: &mut Context) {
        self.0.size_of_children(context);
        self.1.size_of_children(context);
        self.2.size_of_children(context);
    }
}

impl<A: SizeOf, B: SizeOf, C: SizeOf, D: SizeOf> SizeOf for (A, B, C, D) {
    open spec fn children_charged(&self, before: Tally, after: Tally) -> bool {
        exists|at_1: Tally, at_2: Tally, at_3: Tally|
            {
                &&& #[trigger] self.0.children_charged(before, at_1)
                &&& at_1.extends(before)
                &&& #[trigger] self.1.children_charged(at_1, at_2)
                &&& at_2.extends(at_1)
                &&& #[trigger] self.2.children_charged(at_2, at_3)
                &&& at_3.extends(at_2)
                &&& self.3.children_charged(at_3, after)
            }
    }

    fn size_of_children(&self, context: &mut Context) {
        self.0.size_of_children(context);
        self.1.size_of_children(context);
        self.2.size_of_children(context);
        self.3.size_of_children(context);
    }
}

impl<A: SizeOf, B: SizeOf, C: SizeOf, D: SizeOf, E: SizeOf> SizeOf for (A, B, C, D, E) {
    open spec fn children_charged(&self, before: Tally, after: Tally) -> bool {
        exists|at_1: Tally, at_2: Tally, at_3: Tally, at_4: Tally|
            {
                &&& #[trigger] self.0.children_charged(before, at_1)
                &&& at_1.extends(before)
                &&& #[trigger] self.1.children_charged(at_1, at_2)
                &&& at_2.extends(at_1)
                &&& #[trigger] self.2.children_charged(at_2, at_3)
                &&& at_3.extends(at_2)
                &&& #[trigger] self.3.children_charged(at_3, at_4)
                &&& at_4.extends(at_3)
                &&& self.4.children_charged(at_4, after)
            }
    }

    fn size_of_children(&self, context: &mut Context) {
        self.0.size_of_children(context);
        self.1.size_of_children(context);
        self.2.size_of_children(context);
        self.3.size_of_children(context);
        self.4.size_of_children(context);
    }
}

impl<A: SizeOf, B: SizeOf, C: SizeOf, D: SizeOf, E: SizeOf, F: SizeOf> SizeOf for (A, B, C, D, E, F) {
    open spec fn children_charged(&self, before: Tally, after: Tally) -> bool {
        exists|at_1: Tally, at_2: Tally, at_3: Tally, at_4: Tally, at_5: Tally|
            {
                &&& #[trigger] self.0.children_charged(before, at_1)
                &&& at_1.extends(before)
                &&& #[trigger] self.1.children_charged(at_1, at_2)
                &&& at_2.extends(at_1)
                &&& #[trigger] self.2.children_charged(at_2, at_3)
                &&& at_3.extends(at_2)
                &&& #[trigger] self.3.children_charged(at_3, at_4)
                &&& at_4.extends(at_3)
                &&& #[trigger] self.4.children_charged(at_4, at_5)
                &&& at_5.extends(at_4)
                &&& self.5.children_charged(at_5, after)
            }
    }

    fn size_of_children(&self, context: &mut Context) {
        self.0.size_of_children(context);
        self.1.size_of_children(context);
        self.2.size_of_children(context);
        self.3.size_of_children(context);
        self.4.size_of_children(context);
        self.5.size_of_children(context);
    }
}

impl<A: SizeOf, B: SizeOf, C: SizeOf, D: SizeOf, E: SizeOf, F: SizeOf, G: SizeOf> SizeOf for (A, B, C, D, E, F, G) {
    open spec fn children_charged(&self, before: Tally, after: Tally) -> bool {
        exists|at_1: Tally, at_2: Tally, at_3: Tally, at_4: Tally, at_5: Tally, at_6: Tally|
            {
                &&& #[trigger] self.0.children_charged(before, at_1)
                &&& at_1.extends(before)
                &&& #[trigger] self.1.children_charged(at_1, at_2)
                &&& at_2.extends(at_1)
                &&& #[trigger] self.2.children_charged(at_2, at_3)
                &&& at_3.extends(at_2)
                &&& #[trigger] self.3.children_charged(at_3, at_4)
                &&& at_4.extends(at_3)
                &&& #[trigger] self.4.children_charged(at_4, at_5)
                &&& at_5.extends(at_4)
                &&& #[trigger] self.5.children_charged(at_5, at_6)
                &&& at_6.extends(at_5)
                &&& self.6.children_charged(at_6, after)
            }
    }

    fn size_of_children(&self, context: &mut Context) {
        self.0.size_of_children(context);
        self.1.size_of_children(context);
        self.2.size_of_children(context);
        self.3.size_of_children(context);
        self.4.size_of_children(context);
        self.5.size_of_children(context);
        self.6.size_of_children(context);
    }
}

impl<A: SizeOf, B: SizeOf, C: SizeOf, D: SizeOf, E: SizeOf, F: SizeOf, G: SizeOf, H: SizeOf> SizeOf for (A, B, C, D, E, F, G, H) {
    open spec fn children_charged(&self, before: Tally, after: Tally) -> bool {
        exists|at_1: Tally, at_2: Tally, at_3: Tally, at_4: Tally, at_5: Tally, at_6: Tally, at_7: Tally|
            {
                &&& #[trigger] self.0.children_charged(before, at_1)
                &&& at_1.extends(before)
                &&& #[trigger] self.1.children_charged(at_1, at_2)
                &&& at_2.extends(at_1)
                &&& #[trigger] self.2.children_charged(at_2, at_3)
                &&& at_3.extends(at_2)
                &&& #[trigger] self.3.children_charged(at_3, at_4)
                &&& at_4.extends(at_3)
                &&& #[trigger] self.4.children_charged(at_4, at_5)
                &&& at_5.extends(at_4)
                &&& #[trigger] self.5.children_charged(at_5, at_6)
                &&& at_6.extends(at_5)
                &&& #[trigger] self.6.children_charged(at_6, at_7)
                &&& at_7.extends(at_6)
                &&& self.7.children_charged(at_7, after)
            }
    }

    fn size_of_children(&self, context: &mut Context) {
        self.0.size_of_children(context);
        self.1.size_of_children(context);
        self.2.size_of_children(context);
        self.3.size_of_children(context);
        self.4.size_of_children(context);
        self.5.size_of_children(context);
        self.6.size_of_children(context);
        self.7.size_of_children(context);
    }
}

impl<A: SizeOf, B: SizeOf, C: SizeOf, D: SizeOf, E: SizeOf, F: SizeOf, G: SizeOf, H: SizeOf, I: SizeOf> SizeOf for (A, B, C, D, E, F, G, H, I) {
    open spec fn children_charged(&self, before: Tally, after: Tally) -> bool {
        exists|at_1: Tally, at_2: Tally, at_3: Tally, at_4: Tally, at_5: Tally, at_6: Tally, at_7: Tally, at_8: Tally|
            {
                &&& #[trigger] self.0.children_charged(before, at_1)
                &&& at_1.extends(before)
                &&& #[trigger] self.1.children_charged(at_1, at_2)
                &&& at_2.extends(at_1)
                &&& #[trigger] self.2.children_charged(at_2, at_3)
                &&& at_3.extends(at_2)
                &&& #[trigger] self.3.children_charged(at_3, at_4)
                &&& at_4.extends(at_3)
                &&& #[trigger] self.4.children_charged(at_4, at_5)
                &&& at_5.extends(at_4)
                &&& #[trigger] self.5.children_charged(at_5, at_6)
                &&& at_6.extends(at_5)
                &&& #[trigger] self.6.children_charged(at_6, at_7)
                &&& at_7.extends(at_6)
                &&& #[trigger] self.7.children_charged(at_7, at_8)
                &&& at_8.extends(at_7)
                &&& self.8.children_charged(at_8, after)
            }
    }

    fn size_of_children(&self, context: &mut Context) {
        self.0.size_of_children(context);
        self.1.size_of_children(context);
        self.2.size_of_children(context);
        self.3.size_of_children(context);
        self.4.size_of_children(context);
        self.5.size_of_children(context);
        self.6.size_of_children(context);
        self.7.size_of_children(context);
        self.8.size_of_children(context);
    }
}

impl<A: SizeOf, B: SizeOf, C: SizeOf, D: SizeOf, E: SizeOf, F: SizeOf, G: SizeOf, H: SizeOf, I: SizeOf, J: SizeOf> SizeOf for (A, B, C, D, E, F, G, H, I, J) {
    open spec fn children_charged(&self, before: Tally, after: Tally) -> bool {
        exists|at_1: Tally, at_2: Tally, at_3: Tally, at_4: Tally, at_5: Tally, at_6: Tally, at_7: Tally, at_8: Tally, at_9: Tally|
            {
                &&& #[trigger] self.0.children_charged(before, at_1)
                &&& at_1.extends(before)
                &&& #[trigger] self.1.children_charged(at_1, at_2)
                &&& at_2.extends(at_1)
                &&& #[trigger] self.2.children_charged(at_2, at_3)
                &&& at_3.extends(at_2)
                &&& #[trigger] self.3.children_charged(at_3, at_4)
                &&& at_4.extends(at_3)
                &&& #[trigger] self.4.children_charged(at_4, at_5)
                &&& at_5.extends(at_4)
                &&& #[trigger] self.5.children_charged(at_5, at_6)
                &&& at_6.extends(at_5)
                &&& #[trigger] self.6.children_charged(at_6, at_7)
                &&& at_7.extends(at_6)
                &&& #[trigger] self.7.children_charged(at_7, at_8)
                &&& at_8.extends(at_7)
                &&& #[trigger] self.8.children_charged(at_8, at_9)
                &&& at_9.extends(at_8)
                &&& self.9.children_charged(at_9, after)
            }
    }

    fn size_of_children(&self, context: &mut Context) {
        self.0.size_of_children(context);
        self.1.size_of_children(context);
        self.2.size_of_children(context);
        self.3.size_of_children(context);
        self.4.size_of_children(context);
        self.5.size_of_children(context);
        self.6.size_of_children(context);
        self.7.size_of_children(context);
        self.8.size_of_children(context);
        self.9.size_of_children(context);
    }
}

impl<A: SizeOf, B: SizeOf, C: SizeOf, D: SizeOf, E: SizeOf, F: SizeOf, G: SizeOf, H: SizeOf, I: SizeOf, J: SizeOf, K: SizeOf> SizeOf for (A, B, C, D, E, F, G, H, I, J, K) {
    open spec fn children_charged(&self, before: Tally, after: Tally) -> bool {
        exists|at_1: Tally, at_2: Tally, at_3: Tally, at_4: Tally, at_5: Tally, at_6: Tally, at_7: Tally, at_8: Tally, at_9: Tally, at_10: Tally|
            {
                &&& #[trigger] self.0.children_charged(before, at_1)
                &&& at_1.extends(before)
                &&& #[trigger] self.1.children_charged(at_1, at_2)
                &&& at_2.extends(at_1)
                &&& #[trigger] self.2.children_charged(at_2, at_3)
                &&& at_3.extends(at_2)
                &&& #[trigger] self.3.children_charged(at_3, at_4)
                &&& at_4.extends(at_3)
                &&& #[trigger] self.4.children_charged(at_4, at_5)
                &&& at_5.extends(at_4)
                &&& #[trigger] self.5.children_charged(at_5, at_6)
                &&& at_6.extends(at_5)
                &&& #[trigger] self.6.children_charged(at_6, at_7)
                &&& at_7.extends(at_6)
                &&& #[trigger] self.7.children_charged(at_7, at_8)
                &&& at_8.extends(at_7)
                &&& #[trigger] self.8.children_charged(at_8, at_9)
                &&& at_9.extends(at_8)
                &&& #[trigger] self.9.children_charged(at_9, at_10)
                &&& at_10.extends(at_9)
                &&& self.10.children_charged(at_10, after)
            }
    }

    fn size_of_children(&self, context: &mut Context) {
        self.0.size_of_children(context);
        self.1.size_of_children(context);
        self.2.size_of_children(context);
        self.3.size_of_children(context);
        self.4.size_of_children(context);
        self.5.size_of_children(context);
        self.6.size_of_children(context);
        self.7.size_of_children(context);
        self.8.size_of_children(context);
        self.9.size_of_children(context);
        self.10.size_of_children(context);
    }
}

impl<A: SizeOf, B: SizeOf, C: SizeOf, D: SizeOf, E: SizeOf, F: SizeOf, G: SizeOf, H: SizeOf, I: SizeOf, J: SizeOf, K: SizeOf, L: SizeOf> SizeOf for (A, B, C, D, E, F, G, H, I, J, K, L) {
    open spec fn children_charged(&self, before: Tally, after: Tally) -> bool {
        exists|at_1: Tally, at_2: Tally, at_3: Tally, at_4: Tally, at_5: Tally, at_6: Tally, at_7: Tally, at_8: Tally, at_9: Tally, at_10: Tally, at_11: Tally|
            {
                &&& #[trigger] self.0.children_charged(before, at_1)
                &&& at_1.extends(before)
                &&& #[trigger] self.1.children_charged(at_1, at_2)
                &&& at_2.extends(at_1)
                &&& #[trigger] self.2.children_charged(at_2, at_3)
                &&& at_3.extends(at_2)
                &&& #[trigger] self.3.children_charged(at_3, at_4)
                &&& at_4.extends(at_3)
                &&& #[trigger] self.4.children_charged(at_4, at_5)
                &&& at_5.extends(at_4)
                &&& #[trigger] self.5.children_charged(at_5, at_6)
                &&& at_6.extends(at_5)
                &&& #[trigger] self.6.children_charged(at_6, at_7)
                &&& at_7.extends(at_6)
                &&& #[trigger] self.7.children_charged(at_7, at_8)
                &&& at_8.extends(at_7)
                &&& #[trigger] self.8.children_charged(at_8, at_9)
                &&& at_9.extends(at_8)
                &&& #[trigger] self.9.children_charged(at_9, at_10)
                &&& at_10.extends(at_9)
                &&& #[trigger] self.10.children_charged(at_10, at_11)
                &&& at_11.extends(at_10)
                &&& self.11.children_charged(at_11, after)
            }
    }

    fn size_of_children(&self, context: &mut Context) {
        self.0.size_of_children(context);
        self.1.size_of_children(context);
        self.2.size_of_children(context);
        self.3.size_of_children(context);
        self.4.size_of_children(context);
        self.5.size_of_children(context);
        self.6.size_of_children(context);
        self.7.size_of_children(context);
        self.8.size_of_children(context);
        self.9.size_of_children(context);
        self.10.size_of_children(context);
        self.11.size_of_children(context);
    }
}

impl<A: SizeOf, B: SizeOf, C: SizeOf, D: SizeOf, E: SizeOf, F: SizeOf, G: SizeOf, H: SizeOf, I: SizeOf, J: SizeOf, K: SizeOf, L: SizeOf, M: SizeOf> SizeOf for (A, B, C, D, E, F, G, H, I, J, K, L, M) {
    open spec fn children_charged(&self, before: Tally, after: Tally) -> bool {
        exists|at_1: Tally, at_2: Tally, at_3: Tally, at_4: Tally, at_5: Tally, at_6: Tally, at_7: Tally, at_8: Tally, at_9: Tally, at_10: Tally, at_11: Tally, at_12: Tally|
            {
                &&& #[trigger] self.0.children_charged(before, at_1)
                &&& at_1.extends(before)
                &&& #[trigger] self.1.children_charged(at_1, at_2)
                &&& at_2.extends(at_1)
                &&& #[trigger] self.2.children_charged(at_2, at_3)
                &&& at_3.extends(at_2)
                &&& #[trigger] self.3.children_charged(at_3, at_4)
                &&& at_4.extends(at_3)
                &&& #[trigger] self.4.children_charged(at_4, at_5)
                &&& at_5.extends(at_4)
                &&& #[trigger] self.5.children_charged(at_5, at_6)
                &&& at_6.extends(at_5)
                &&& #[trigger] self.6.children_charged(at_6, at_7)
                &&& at_7.extends(at_6)
                &&& #[trigger] self.7.children_charged(at_7, at_8)
                &&& at_8.extends(at_7)
                &&& #[trigger] self.8.children_charged(at_8, at_9)
                &&& at_9.extends(at_8)
                &&& #[trigger] self.9.children_charged(at_9, at_10)
                &&& at_10.extends(at_9)
                &&& #[trigger] self.10.children_charged(at_10, at_11)
                &&& at_11.extends(at_10)
                &&& #[trigger] self.11.children_charged(at_11, at_12)
                &&& at_12.extends(at_11)
                &&& self.12.children_charged(at_12, after)
            }
    }

    fn size_of_children(&self, context: &mut Context) {
        self.0.size_of_children(context);
        self.1.size_of_children(context);
        self.2.size_of_children(context);
        self.3.size_of_children(context);
        self.4.size_of_children(context);
        self.5.size_of_children(context);
        self.6.size_of_children(context);
        self.7.size_of_children(context);
        self.8.size_of_children(context);
        self.9.size_of_children(context);
        self.10.size_of_children(context);
        self.11.size_of_children(context);
        self.12.size_of_children(context);
    }
}

impl<A: SizeOf, B: SizeOf, C: SizeOf, D: SizeOf, E: SizeOf, F: SizeOf, G: SizeOf, H: SizeOf, I: SizeOf, J: SizeOf, K: SizeOf, L: SizeOf, M: SizeOf, N: SizeOf> SizeOf for (A, B, C, D, E, F, G, H, I, J, K, L, M, N) {
    open spec fn children_charged(&self, before: Tally, after: Tally) -> bool {
        exists|at_1: Tally, at_2: Tally, at_3: Tally, at_4: Tally, at_5: Tally, at_6: Tally, at_7: Tally, at_8: Tally, at_9: Tally, at_10: Tally, at_11: Tally, at_12: Tally, at_13: Tally|
            {
                &&& #[trigger] self.0.children_charged(before, at_1)
                &&& at_1.extends(before)
                &&& #[trigger] self.1.children_charged(at_1, at_2)
                &&& at_2.extends(at_1)
                &&& #[trigger] self.2.children_charged(at_2, at_3)
                &&& at_3.extends(at_2)
                &&& #[trigger] self.3.children_charged(at_3, at_4)
                &&& at_4.extends(at_3)
                &&& #[trigger] self.4.children_charged(at_4, at_5)
                &&& at_5.extends(at_4)
                &&& #[trigger] self.5.children_charged(at_5, at_6)
                &&& at_6.extends(at_5)
                &&& #[trigger] self.6.children_charged(at_6, at_7)
                &&& at_7.extends(at_6)
                &&& #[trigger] self.7.children_charged(at_7, at_8)
                &&& at_8.extends(at_7)
                &&& #[trigger] self.8.children_charged(at_8, at_9)
                &&& at_9.extends(at_8)
                &&& #[trigger] self.9.children_charged(at_9, at_10)
                &&& at_10.extends(at_9)
                &&& #[trigger] self.10.children_charged(at_10, at_11)
                &&& at_11.extends(at_10)
                &&& #[trigger] self.11.children_charged(at_11, at_12)
                &&& at_12.extends(at_11)
                &&& #[trigger] self.12.children_charged(at_12, at_13)
                &&& at_13.extends(at_12)
                &&& self.13.children_charged(at_13, after)
            }
    }

    fn size_of_children(&self, context: &mut Context) {
        self.0.size_of_children(context);
        self.1.size_of_children(context);
        self.2.size_of_children(context);
        self.3.size_of_children(context);
        self.4.size_of_children(context);
        self.5.size_of_children(context);
        self.6.size_of_children(context);
        self.7.size_of_children(context);
        self.8.size_of_children(context);
        self.9.size_of_children(context);
        self.10.size_of_children(context);
        self.11.size_of_children(context);
        self.12.size_of_children(context);
        self.13.size_of_children(context);
    }
}

impl<A: SizeOf, B: SizeOf, C: SizeOf, D: SizeOf, E: SizeOf, F: SizeOf, G: SizeOf, H: SizeOf, I: SizeOf, J: SizeOf, K: SizeOf, L: SizeOf, M: SizeOf, N: SizeOf, O: SizeOf> SizeOf for (A, B, C, D, E, F, G, H, I, J, K, L, M, N, O) {
    open spec fn children_charged(&self, before: Tally, after: Tally) -> bool {
        exists|at_1: Tally, at_2: Tally, at_3: Tally, at_4: Tally, at_5: Tally, at_6: Tally, at_7: Tally, at_8: Tally, at_9: Tally, at_10: Tally, at_11: Tally, at_12: Tally, at_13: Tally, at_14: Tally|
            {
                &&& #[trigger] self.0.children_charged(before, at_1)
                &&& at_1.extends(before)
                &&& #[trigger] self.1.children_charged(at_1, at_2)
                &&& at_2.extends(at_1)
                &&& #[trigger] self.2.children_charged(at_2, at_3)
                &&& at_3.extends(at_2)
                &&& #[trigger] self.3.children_charged(at_3, at_4)
                &&& at_4.extends(at_3)
                &&& #[trigger] self.4.children_charged(at_4, at_5)
                &&& at_5.extends(at_4)
                &&& #[trigger] self.5.children_charged(at_5, at_6)
                &&& at_6.extends(at_5)
                &&& #[trigger] self.6.children_charged(at_6, at_7)
                &&& at_7.extends(at_6)
                &&& #[trigger] self.7.children_charged(at_7, at_8)
                &&& at_8.extends(at_7)
                &&& #[trigger] self.8.children_charged(at_8, at_9)
                &&& at_9.extends(at_8)
                &&& #[trigger] self.9.children_charged(at_9, at_10)
                &&& at_10.extends(at_9)
                &&& #[trigger] self.10.children_charged(at_10, at_11)
                &&& at_11.extends(at_10)
                &&& #[trigger] self.11.children_charged(at_11, at_12)
                &&& at_12.extends(at_11)
                &&& #[trigger] self.12.children_charged(at_12, at_13)
                &&& at_13.extends(at_12)
                &&& #[trigger] self.13.children_charged(at_13, at_14)
                &&& at_14.extends(at_13)
                &&& self.14.children_charged(at_14, after)
            }
    }

    fn size_of_children(&self, context: &mut Context) {
        self.0.size_of_children(context);
        self.1.size_of_children(context);
        self.2.size_of_children(context);
        self.3.size_of_children(context);
        self.4.size_of_children(context);
        self.5.size_of_children(context);
        self.6.size_of_children(context);
        self.7.size_of_children(context);
        self.8.size_of_children(context);
        self.9.size_of_children(context);
        self.10.size_of_children(context);
        self.11.size_of_children(context);
        self.12.size_of_children(context);
        self.13.size_of_children(context);
        self.14.size_of_children(context);
    }
}

impl<A: SizeOf, B: SizeOf, C: SizeOf, D: SizeOf, E: SizeOf, F: SizeOf, G: SizeOf, H: SizeOf, I: SizeOf, J: SizeOf, K: SizeOf, L: SizeOf, M: SizeOf, N: SizeOf, O: SizeOf, P: SizeOf> SizeOf for (A, B, C, D, E, F, G, H, I, J, K, L, M, N, O, P) {
    open spec fn children_charged(&self, before: Tally, after: Tally) -> bool {
        exists|at_1: Tally, at_2: Tally, at_3: Tally, at_4: Tally, at_5: Tally, at_6: Tally, at_7: Tally, at_8: Tally, at_9: Tally, at_10: Tally, at_11: Tally, at_12: Tally, at_13: Tally, at_14: Tally, at_15: Tally|
            {
                &&& #[trigger] self.0.children_charged(before, at_1)
                &&& at_1.extends(before)
                &&& #[trigger] self.1.children_charged(at_1, at_2)
                &&& at_2.extends(at_1)
                &&& #[trigger] self.2.children_charged(at_2, at_3)
                &&& at_3.extends(at_2)
                &&& #[trigger] self.3.children_charged(at_3, at_4)
                &&& at_4.extends(at_3)
                &&& #[trigger] self.4.children_charged(at_4, at_5)
                &&& at_5.extends(at_4)
                &&& #[trigger] self.5.children_charged(at_5, at_6)
                &&& at_6.extends(at_5)
                &&& #[trigger] self.6.children_charged(at_6, at_7)
                &&& at_7.extends(at_6)
                &&& #[trigger] self.7.children_charged(at_7, at_8)
                &&& at_8.extends(at_7)
                &&& #[trigger] self.8.children_charged(at_8, at_9)
                &&& at_9.extends(at_8)
                &&& #[trigger] self.9.children_charged(at_9, at_10)
                &&& at_10.extends(at_9)
                &&& #[trigger] self.10.children_charged(at_10, at_11)
                &&& at_11.extends(at_10)
                &&& #[trigger] self.11.children_charged(at_11, at_12)
                &&& at_12.extends(at_11)
                &&& #[trigger] self.12.children_charged(at_12, at_13)
                &&& at_13.extends(at_12)
                &&& #[trigger] self.13.children_charged(at_13, at_14)
                &&& at_14.extends(at_13)
                &&& #[trigger] self.14.children_charged(at_14, at_15)
                &&& at_15.extends(at_14)
                &&& self.15.children_charged(at_15, after)
            }
    }

    fn size_of_children(&self, context: &mut Context) {
        self.0.size_of_children(context);
        self.1.size_of_children(context);
        self.2.size_of_children(context);
        self.3.size_of_children(context);
        self.4.size_of_children(context);
        self.5.size_of_children(context);
        self.6.size_of_children(context);
        self.7.size_of_children(context);
        self.8.size_of_children(context);
        self.9.size_of_children(context);
        self.10.size_of_children(context);
        self.11.size_of_children(context);
        self.12.size_of_children(context);
        self.13.size_of_children(context);
        self.14.size_of_children(context);
        self.15.size_of_children(context);
    }
}

} // verus!
