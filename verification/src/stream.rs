//! Stream mode: a pull-based stream of blocks, ending with a terminal error
//! when an invocation fails.

use vstd::prelude::*;

use crate::error::ToolError;

verus! {

/// A pull-based stream of blocks (or a terminal error) from one invocation.
pub struct BlockStream<B> {
    items: Vec<Result<B, ToolError>>,
}

impl<B> View for BlockStream<B> {
    type V = Seq<Result<B, ToolError>>;

    closed spec fn view(&self) -> Seq<Result<B, ToolError>> {
        self.items@
    }
}

/// One pull from a stream holding `items`: the item handed out (none once
/// the stream is exhausted) and the items left.
pub open spec fn stream_next<B>(items: Seq<Result<B, ToolError>>) -> (
    Option<Result<B, ToolError>>,
    Seq<Result<B, ToolError>>,
) {
    if items.len() == 0 {
        (None, items)
    } else {
        (Some(items[0]), items.drop_first())
    }
}

/// The items left after `k` pulls.
pub open spec fn pulled<B>(items: Seq<Result<B, ToolError>>, k: nat) -> Seq<Result<B, ToolError>>
    decreases k,
{
    if k == 0 {
        items
    } else {
        stream_next(pulled(items, (k - 1) as nat)).1
    }
}

proof fn lemma_pulled<B>(items: Seq<Result<B, ToolError>>, k: nat)
    ensures
        k <= items.len() ==> pulled(items, k) == items.skip(k as int),
        k > items.len() ==> pulled(items, k).len() == 0,
    decreases k,
{
    if k > 0 {
        lemma_pulled(items, (k - 1) as nat);
        if k <= items.len() {
            assert(items.skip(k - 1).drop_first() =~= items.skip(k as int));
        }
        if k - 1 == items.len() {
            assert(items.skip(k - 1).len() == 0);
        }
    } else {
        assert(items.skip(0) =~= items);
    }
}

/// A stream made from a block vector hands out each block, in order, as
/// `Ok`, and after the last one nothing on every later pull: the `k`th pull
/// from the items [`BlockStream::from_blocks`] holds gives `Ok(blocks[k])`
/// while `k` is below the number of blocks, and `None` from then on.
pub proof fn law_from_blocks_drains_in_order<B>(
    blocks: Seq<B>,
    items: Seq<Result<B, ToolError>>,
    k: nat,
)
    requires
        items.len() == blocks.len(),
        forall|i: int| 0 <= i < blocks.len() ==> items[i] == Ok::<B, ToolError>(blocks[i]),
    ensures
        stream_next(pulled(items, k)).0 == if k < blocks.len() {
            Some(Ok::<B, ToolError>(blocks[k as int]))
        } else {
            None::<Result<B, ToolError>>
        },
{
    lemma_pulled(items, k);
}

impl<B> BlockStream<B> {
    /// A stream over an already complete block vector.
    pub fn from_blocks(blocks: Vec<B>) -> (r: BlockStream<B>)
        ensures
            r@.len() == blocks@.len(),
            forall|i: int| 0 <= i < blocks@.len() ==> r@[i] == Ok::<B, ToolError>(blocks@[i]),
    {
        let mut blocks = blocks;
        let ghost original = blocks@;
        let mut items: Vec<Result<B, ToolError>> = Vec::new();
        while blocks.len() > 0
            invariant
                items@.len() + blocks@.len() == original.len(),
                forall|i: int|
                    0 <= i < items@.len() ==> items@[i] == Ok::<B, ToolError>(original[i]),
                forall|i: int|
                    0 <= i < blocks@.len() ==> blocks@[i] == original[items@.len() + i],
            decreases blocks@.len(),
        {
            let b = blocks.remove(0);
            items.push(Ok(b));
        }
        BlockStream { items }
    }

    /// A stream over the given items, in order.
    pub fn from_items(items: Vec<Result<B, ToolError>>) -> (r: BlockStream<B>)
        ensures
            r@ == items@,
    {
        BlockStream { items }
    }

    /// The next item, or `None` once the stream is exhausted.
    pub fn next(&mut self) -> (r: Option<Result<B, ToolError>>)
        ensures
            (r, final(self)@) == stream_next(old(self)@),
            old(self)@.len() == 0 ==> r is None && final(self)@ == old(self)@,
            old(self)@.len() > 0 ==> r == Some(old(self)@[0]) && final(self)@
                == old(self)@.drop_first(),
    {
        if self.items.len() == 0 {
            None
        } else {
            let item = self.items.remove(0);
            proof {
                assert(self.items@ =~= old(self)@.drop_first());
            }
            Some(item)
        }
    }
}

} // verus!
