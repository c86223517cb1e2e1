//! The stack of the processor behaves as a stack.
//!
//! Pushes and pops, in any order that never pops from an empty stack and
//! never holds more than 256 bytes, hand back what was pushed, last in first
//! out, and move the stack pointer by the number of bytes held, modulo 256.

use crate::bus::{Bus, FlatBus, FlatBusView};
use crate::cpu::{Step, CPU};
use crate::laws::law_stack_is_memory;
use vstd::prelude::*;

verus! {

/// One step of stack traffic.
pub enum StackOp {
    Push(u8),
    Pop,
}

/// Stack traffic run on the processor. The result holds the bytes that the
/// pops returned, in the order of the pops.
pub open spec fn stack_run<B: Bus>(cpu: CPU, bus: B::V, ops: Seq<StackOp>) -> Step<B::V, Seq<u8>>
    decreases ops.len(),
{
    if ops.len() == 0 {
        Step { cpu, bus, out: Seq::empty() }
    } else {
        match ops[0] {
            StackOp::Push(v) => {
                let s = cpu.spec_push_byte::<B>(bus, v);
                stack_run::<B>(s.cpu, s.bus, ops.drop_first())
            },
            StackOp::Pop => {
                let r = cpu.spec_pop_byte::<B>(bus);
                let rest = stack_run::<B>(r.cpu, r.bus, ops.drop_first());
                Step { cpu: rest.cpu, bus: rest.bus, out: seq![r.out] + rest.out }
            },
        }
    }
}

/// The same traffic run on a sequence whose last element is the top of the
/// stack. The result holds the bytes popped and the stack that is left. There
/// is none if the traffic pops from an empty stack or pushes onto one that
/// holds 256 bytes.
pub open spec fn model_run(stack: Seq<u8>, ops: Seq<StackOp>) -> Option<(Seq<u8>, Seq<u8>)>
    decreases ops.len(),
{
    if ops.len() == 0 {
        Some((Seq::empty(), stack))
    } else {
        match ops[0] {
            StackOp::Push(v) => if stack.len() >= 256 {
                None
            } else {
                model_run(stack.push(v), ops.drop_first())
            },
            StackOp::Pop => if stack.len() == 0 {
                None
            } else {
                match model_run(stack.drop_last(), ops.drop_first()) {
                    None => None,
                    Some((popped, left)) => Some((seq![stack.last()] + popped, left)),
                }
            },
        }
    }
}

/// Whether an address lies in the page of the stack.
pub open spec fn in_stack_page(addr: u16) -> bool {
    0x0100 <= addr <= 0x01FF
}

/// Whether the stack page is plain memory on every bus model that `holds`
/// accepts: a store there keeps the model acceptable, is read back from the
/// address it went to and leaves the rest of the page as it was.
pub open spec fn stack_page_is_memory<B: Bus>(holds: spec_fn(B::V) -> bool) -> bool {
    &&& forall|m: B::V, a: u16, v: u8|
        holds(m) && in_stack_page(a) ==> holds(#[trigger] B::mem_written(m, a, v))
    &&& forall|m: B::V, a: u16, v: u8, b: u16|
        holds(m) && in_stack_page(a) && in_stack_page(b) ==> #[trigger] B::mem_byte(
            B::mem_written(m, a, v),
            b,
        ) == (if a == b {
            v
        } else {
            B::mem_byte(m, b)
        })
}

/// The address of the stack slot `k` bytes above the stack pointer.
pub open spec fn slot(sp: u8, k: int) -> u16 {
    CPU::stack_addr(((sp + k) % 256) as u8)
}

/// Whether the bytes of `stack` lie in memory above the stack pointer, the
/// top of the stack nearest to it.
pub open spec fn stack_in_memory<B: Bus>(cpu: CPU, bus: B::V, stack: Seq<u8>) -> bool {
    forall|i: int|
        0 <= i < stack.len() ==> B::mem_byte(bus, slot(cpu.SP, stack.len() - i))
            == #[trigger] stack[i]
}

/// Moving the stack pointer by one and counting one byte more or less comes
/// to the same address modulo 256.
proof fn lemma_stack_pointer_wraps(sp: u8, d: int)
    ensures
        (sp.wrapping_sub(1) + d + 1) % 256 == (sp + d) % 256,
        (sp.wrapping_add(1) + d - 1) % 256 == (sp + d) % 256,
{
}

/// A push onto a stack that lies in memory leaves the grown stack in memory.
proof fn lemma_push_keeps_stack<B: Bus>(
    cpu: CPU,
    bus: B::V,
    stack: Seq<u8>,
    v: u8,
    holds: spec_fn(B::V) -> bool,
)
    requires
        holds(bus),
        stack_page_is_memory::<B>(holds),
        stack.len() < 256,
        stack_in_memory::<B>(cpu, bus, stack),
    ensures
        cpu.spec_push_byte::<B>(bus, v).cpu == (CPU { SP: cpu.SP.wrapping_sub(1), ..cpu }),
        holds(cpu.spec_push_byte::<B>(bus, v).bus),
        stack_in_memory::<B>(
            cpu.spec_push_byte::<B>(bus, v).cpu,
            cpu.spec_push_byte::<B>(bus, v).bus,
            stack.push(v),
        ),
{
    law_stack_is_memory::<B>(cpu, bus, v);
    let after = CPU { SP: cpu.SP.wrapping_sub(1), ..cpu };
    let written = B::mem_written(bus, CPU::stack_addr(cpu.SP), v);
    let grown = stack.push(v);
    assert(slot(after.SP, 1) == CPU::stack_addr(cpu.SP));
    assert forall|i: int| 0 <= i < grown.len() implies B::mem_byte(
        written,
        slot(after.SP, grown.len() - i),
    ) == #[trigger] grown[i] by {
        if i < stack.len() {
            assert(grown[i] == stack[i]);
            assert(slot(after.SP, grown.len() - i) == slot(cpu.SP, stack.len() - i));
            assert(slot(cpu.SP, stack.len() - i) != CPU::stack_addr(cpu.SP));
        }
    }
}

/// A pop from a stack that lies in memory returns its top and leaves the
/// rest in memory.
proof fn lemma_pop_keeps_stack<B: Bus>(cpu: CPU, bus: B::V, stack: Seq<u8>)
    requires
        1 <= stack.len() <= 256,
        stack_in_memory::<B>(cpu, bus, stack),
    ensures
        cpu.spec_pop_byte::<B>(bus).cpu == (CPU { SP: cpu.SP.wrapping_add(1), ..cpu }),
        cpu.spec_pop_byte::<B>(bus).bus == bus,
        cpu.spec_pop_byte::<B>(bus).out == stack.last(),
        stack_in_memory::<B>(cpu.spec_pop_byte::<B>(bus).cpu, bus, stack.drop_last()),
{
    law_stack_is_memory::<B>(cpu, bus, 0);
    let after = CPU { SP: cpu.SP.wrapping_add(1), ..cpu };
    let shrunk = stack.drop_last();
    assert(slot(cpu.SP, 1) == CPU::stack_addr(cpu.SP.wrapping_add(1)));
    assert(B::mem_byte(bus, slot(cpu.SP, 1)) == stack[stack.len() - 1]);
    assert forall|i: int| 0 <= i < shrunk.len() implies B::mem_byte(
        bus,
        slot(after.SP, shrunk.len() - i),
    ) == #[trigger] shrunk[i] by {
        assert(shrunk[i] == stack[i]);
        assert(slot(after.SP, shrunk.len() - i) == slot(cpu.SP, stack.len() - i));
    }
}

/// Stack traffic on the processor returns what the same traffic returns on a
/// mathematical stack, and leaves the stack pointer below its start by the
/// number of bytes that the stack has grown, modulo 256. Nothing else in the
/// processor changes.
pub proof fn law_stack_follows_model<B: Bus>(
    cpu: CPU,
    bus: B::V,
    stack: Seq<u8>,
    ops: Seq<StackOp>,
    holds: spec_fn(B::V) -> bool,
)
    requires
        holds(bus),
        stack_page_is_memory::<B>(holds),
        stack.len() <= 256,
        stack_in_memory::<B>(cpu, bus, stack),
        model_run(stack, ops) is Some,
    ensures
        ({
            let model = model_run(stack, ops)->Some_0;
            let actual = stack_run::<B>(cpu, bus, ops);
            &&& actual.out == model.0
            &&& actual.cpu == (CPU {
                SP: ((cpu.SP + stack.len() - model.1.len()) % 256) as u8,
                ..cpu
            })
            &&& holds(actual.bus)
            &&& model.1.len() <= 256
            &&& stack_in_memory::<B>(actual.cpu, actual.bus, model.1)
        }),
    decreases ops.len(),
{
    if ops.len() == 0 {
        assert(cpu == (CPU { SP: ((cpu.SP + stack.len() - stack.len()) % 256) as u8, ..cpu }));
    } else {
        let rest = ops.drop_first();
        let model = model_run(stack, ops)->Some_0;
        match ops[0] {
            StackOp::Push(v) => {
                let next = CPU { SP: cpu.SP.wrapping_sub(1), ..cpu };
                lemma_push_keeps_stack::<B>(cpu, bus, stack, v, holds);
                law_stack_follows_model::<B>(
                    next,
                    cpu.spec_push_byte::<B>(bus, v).bus,
                    stack.push(v),
                    rest,
                    holds,
                );
                lemma_stack_pointer_wraps(cpu.SP, stack.len() - model.1.len());
            },
            StackOp::Pop => {
                let next = CPU { SP: cpu.SP.wrapping_add(1), ..cpu };
                lemma_pop_keeps_stack::<B>(cpu, bus, stack);
                law_stack_follows_model::<B>(next, bus, stack.drop_last(), rest, holds);
                lemma_stack_pointer_wraps(cpu.SP, stack.len() - model.1.len());
            },
        }
    }
}

/// Balanced stack traffic, which leaves the mathematical stack empty as it
/// found it, gives the stack pointer back and returns the bytes that were
/// pushed, each to the pop that matches its push.
pub proof fn law_balanced_stack_traffic<B: Bus>(
    cpu: CPU,
    bus: B::V,
    ops: Seq<StackOp>,
    holds: spec_fn(B::V) -> bool,
)
    requires
        holds(bus),
        stack_page_is_memory::<B>(holds),
        model_run(Seq::empty(), ops) is Some,
        model_run(Seq::empty(), ops)->Some_0.1.len() == 0,
    ensures
        stack_run::<B>(cpu, bus, ops).cpu == cpu,
        stack_run::<B>(cpu, bus, ops).out == model_run(Seq::empty(), ops)->Some_0.0,
{
    law_stack_follows_model::<B>(cpu, bus, Seq::empty(), ops, holds);
}

/// The traffic that pushes the bytes of `bytes` in order.
pub open spec fn pushes(bytes: Seq<u8>) -> Seq<StackOp> {
    Seq::new(bytes.len(), |i: int| StackOp::Push(bytes[i]))
}

/// The traffic that pops `n` times.
pub open spec fn pops(n: nat) -> Seq<StackOp> {
    Seq::new(n, |i: int| StackOp::Pop)
}

proof fn lemma_model_pops(stack: Seq<u8>, n: nat)
    requires
        n <= stack.len(),
    ensures
        model_run(stack, pops(n)) == Some(
            (stack.subrange(stack.len() - n, stack.len() as int).reverse(), stack.take(stack.len() - n)),
        ),
    decreases n,
{
    let top = stack.subrange(stack.len() - n, stack.len() as int);
    if n == 0 {
        assert(pops(0).len() == 0);
        assert(top.reverse() =~= Seq::<u8>::empty());
        assert(stack.take(stack.len() - n) =~= stack);
    } else {
        let rest = pops((n - 1) as nat);
        assert(pops(n).drop_first() =~= rest);
        assert(pops(n)[0] == StackOp::Pop);
        lemma_model_pops(stack.drop_last(), (n - 1) as nat);
        let below = stack.drop_last();
        let inner = below.subrange(below.len() - (n - 1), below.len() as int);
        assert(seq![stack.last()] + inner.reverse() =~= top.reverse());
        assert(below.take(below.len() - (n - 1)) =~= stack.take(stack.len() - n));
    }
}

proof fn lemma_model_pushes_then(stack: Seq<u8>, bytes: Seq<u8>, then: Seq<StackOp>)
    requires
        stack.len() + bytes.len() <= 256,
    ensures
        model_run(stack, pushes(bytes) + then) == model_run(stack + bytes, then),
    decreases bytes.len(),
{
    if bytes.len() == 0 {
        assert(pushes(bytes) + then =~= then);
        assert(stack + bytes =~= stack);
    } else {
        let ops = pushes(bytes) + then;
        assert(ops[0] == StackOp::Push(bytes[0]));
        assert(ops.drop_first() =~= pushes(bytes.drop_first()) + then);
        lemma_model_pushes_then(stack.push(bytes[0]), bytes.drop_first(), then);
        assert(stack.push(bytes[0]) + bytes.drop_first() =~= stack + bytes);
    }
}

/// Up to 256 bytes that are pushed and then popped come back in reverse
/// order, and the processor is as before.
pub proof fn law_pushes_then_pops<B: Bus>(
    cpu: CPU,
    bus: B::V,
    bytes: Seq<u8>,
    holds: spec_fn(B::V) -> bool,
)
    requires
        holds(bus),
        stack_page_is_memory::<B>(holds),
        bytes.len() <= 256,
    ensures
        stack_run::<B>(cpu, bus, pushes(bytes) + pops(bytes.len())).cpu == cpu,
        stack_run::<B>(cpu, bus, pushes(bytes) + pops(bytes.len())).out == bytes.reverse(),
{
    let ops = pushes(bytes) + pops(bytes.len());
    lemma_model_pushes_then(Seq::empty(), bytes, pops(bytes.len()));
    assert(Seq::<u8>::empty() + bytes =~= bytes);
    lemma_model_pops(bytes, bytes.len());
    assert(bytes.subrange(0, bytes.len() as int) =~= bytes);
    assert(bytes.take(0) =~= Seq::<u8>::empty());
    law_balanced_stack_traffic::<B>(cpu, bus, ops, holds);
}

/// On a [`FlatBus`] whose memory accepts stores, the stack page is plain memory.
pub proof fn law_flat_bus_stack_is_memory()
    ensures
        stack_page_is_memory::<FlatBus>(|m: FlatBusView| m.wf() && !m.read_only),
{
}

} // verus!
