//! The label resolver: rewrites symbolic control-transfer targets into
//! absolute immediate addresses using an externally supplied symbol table,
//! failing on the first target the table does not name.

use vstd::prelude::*;

use crate::instr_repr::{Operand, Verb};

verus! {

/// Failure of the resolution pass, naming the label with no table entry.
#[derive(Debug, PartialEq, Eq, Clone)]
pub enum ResolveError {
    UnresolvedLabel(String),
}

/// First-match lookup of a label name in the symbol table.
pub open spec fn spec_lookup(t: Seq<(String, u16)>, name: Seq<char>) -> Option<u16>
    decreases t.len(),
{
    if t.len() == 0 {
        None
    } else if t[0].0@ == name {
        Some(t[0].1)
    } else {
        spec_lookup(t.drop_first(), name)
    }
}

/// The symbolic control-transfer target of a verb, if any: Jmp's and Call's
/// single operand, Jz's and Jnz's first operand. No other operand slot is
/// ever a label in this design.
pub open spec fn symbolic_target(v: Verb) -> Option<Seq<char>> {
    match v {
        Verb::Jmp(Operand::Label(s)) => Some(s@),
        Verb::Jz(Operand::Label(s), _) => Some(s@),
        Verb::Jnz(Operand::Label(s), _) => Some(s@),
        Verb::Call(Operand::Label(s)) => Some(s@),
        _ => None,
    }
}

/// `v` with its control-transfer target operand replaced by `Imm(addr)`; no
/// other field changes.
pub open spec fn with_target(v: Verb, addr: u16) -> Verb {
    match v {
        Verb::Jmp(_) => Verb::Jmp(Operand::Imm(addr)),
        Verb::Jz(_, o2) => Verb::Jz(Operand::Imm(addr), o2),
        Verb::Jnz(_, o2) => Verb::Jnz(Operand::Imm(addr), o2),
        Verb::Call(_) => Verb::Call(Operand::Imm(addr)),
        _ => v,
    }
}

/// What resolution makes of one instruction under table `t`: a symbolic
/// target named by `t` becomes the resolved address; everything else is
/// untouched.
pub open spec fn spec_resolved(v: Verb, t: Seq<(String, u16)>) -> Verb {
    match symbolic_target(v) {
        Some(name) => match spec_lookup(t, name) {
            Some(addr) => with_target(v, addr),
            None => v,
        },
        None => v,
    }
}

/// Whether `v` holds a symbolic target that `t` does not name.
pub open spec fn unresolvable(v: Verb, t: Seq<(String, u16)>) -> bool {
    match symbolic_target(v) {
        Some(name) => spec_lookup(t, name) is None,
        None => false,
    }
}

/// Resolving a program that holds no symbolic operand is a no-op: every
/// instruction's resolution is the instruction itself, whatever the table.
pub proof fn lemma_resolve_no_symbolic_noop(p: Seq<Verb>, t: Seq<(String, u16)>)
    requires
        forall|i: int| 0 <= i < p.len() ==> symbolic_target(#[trigger] p[i]) is None,
    ensures
        forall|i: int| 0 <= i < p.len() ==> spec_resolved(#[trigger] p[i], t) == p[i],
        forall|i: int| 0 <= i < p.len() ==> !unresolvable(#[trigger] p[i], t),
{
}

/// A resolvable instruction keeps no symbolic target once resolved, so
/// resolving its resolution again changes nothing: composition is safe.
pub proof fn lemma_resolve_idempotent(v: Verb, t: Seq<(String, u16)>)
    requires
        !unresolvable(v, t),
    ensures
        symbolic_target(spec_resolved(v, t)) is None,
        spec_resolved(spec_resolved(v, t), t) == spec_resolved(v, t),
{
}

/// The address of the first table entry named `name`, if any.
fn lookup(table: &Vec<(String, u16)>, name: &String) -> (r: Option<u16>)
    ensures
        r == spec_lookup(table@, name@),
{
    let mut i: usize = 0;
    proof {
        assert(table@.skip(0) =~= table@);
    }
    while i < table.len()
        invariant
            i <= table@.len(),
            spec_lookup(table@, name@) == spec_lookup(table@.skip(i as int), name@),
        decreases table@.len() - i,
    {
        proof {
            assert(table@.skip(i as int)[0] == table@[i as int]);
            assert(table@.skip(i as int).drop_first() =~= table@.skip(i as int + 1));
        }
        let entry = &table[i];
        if entry.0 == *name {
            return Some(entry.1);
        }
        i += 1;
    }
    proof {
        assert(table@.skip(table@.len() as int) =~= Seq::<(String, u16)>::empty());
    }
    None
}

/// The symbolic control-transfer target held by `v`, if any.
fn target_label<'a>(v: &'a Verb) -> (r: Option<&'a String>)
    ensures
        match r {
            Some(s) => symbolic_target(*v) == Some(s@),
            None => symbolic_target(*v) is None,
        },
{
    match v {
        Verb::Jmp(Operand::Label(s)) => Some(s),
        Verb::Jz(Operand::Label(s), _) => Some(s),
        Verb::Jnz(Operand::Label(s), _) => Some(s),
        Verb::Call(Operand::Label(s)) => Some(s),
        _ => None,
    }
}

/// Resolves one instruction: a pure substitution of its symbolic target, or
/// the unresolved-label error naming that target.
fn resolve_one(v: Verb, label_map: &Vec<(String, u16)>) -> (r: Result<Verb, ResolveError>)
    ensures
        match r {
            Ok(v2) => !unresolvable(v, label_map@) && v2 == spec_resolved(v, label_map@),
            Err(e) => unresolvable(v, label_map@) && (e matches ResolveError::UnresolvedLabel(
                name,
            ) && symbolic_target(v) == Some(name@)),
        },
{
    match v {
        Verb::Jmp(Operand::Label(s)) => match lookup(label_map, &s) {
            Some(addr) => Ok(Verb::Jmp(Operand::Imm(addr))),
            None => Err(ResolveError::UnresolvedLabel(s)),
        },
        Verb::Jz(Operand::Label(s), o2) => match lookup(label_map, &s) {
            Some(addr) => Ok(Verb::Jz(Operand::Imm(addr), o2)),
            None => Err(ResolveError::UnresolvedLabel(s)),
        },
        Verb::Jnz(Operand::Label(s), o2) => match lookup(label_map, &s) {
            Some(addr) => Ok(Verb::Jnz(Operand::Imm(addr), o2)),
            None => Err(ResolveError::UnresolvedLabel(s)),
        },
        Verb::Call(Operand::Label(s)) => match lookup(label_map, &s) {
            Some(addr) => Ok(Verb::Call(Operand::Imm(addr))),
            None => Err(ResolveError::UnresolvedLabel(s)),
        },
        other => Ok(other),
    }
}

/// Resolves every symbolic control-transfer target in `instrs` against
/// `label_map`, in place. On success each instruction is the pure
/// substitution of its target and nothing else changes; on the first target
/// the table does not name, the pass stops with the unresolved-label error
/// naming it and the program is left exactly as it was.
pub fn resolve_labels(instrs: &mut Vec<Verb>, label_map: &Vec<(String, u16)>) -> (r: Result<
    (),
    ResolveError,
>)
    ensures
        (r is Ok) <==> (forall|i: int|
            0 <= i < old(instrs)@.len() ==> !unresolvable(old(instrs)@[i], label_map@)),
        r is Ok ==> final(instrs)@.len() == old(instrs)@.len() && (forall|i: int|
            0 <= i < old(instrs)@.len() ==> final(instrs)@[i] == spec_resolved(
                old(instrs)@[i],
                label_map@,
            )),
        r matches Err(ResolveError::UnresolvedLabel(name)) ==> final(instrs)@ == old(instrs)@ && (
        exists|i: int|
            0 <= i < old(instrs)@.len() && symbolic_target(old(instrs)@[i]) == Some(name@)
                && spec_lookup(label_map@, name@) is None && (forall|j: int|
                0 <= j < i ==> !unresolvable(old(instrs)@[j], label_map@))),
{
    let ghost t = label_map@;
    // First sweep: find the first target the table cannot name, touching
    // nothing, so that a failed pass leaves the program exactly as given.
    let mut i: usize = 0;
    while i < instrs.len()
        invariant
            i <= instrs@.len(),
            instrs@ == old(instrs)@,
            t == label_map@,
            forall|j: int| 0 <= j < i ==> !unresolvable(instrs@[j], t),
        decreases instrs@.len() - i,
    {
        match target_label(&instrs[i]) {
            Some(s) => match lookup(label_map, s) {
                Some(_) => {},
                None => {
                    return Err(ResolveError::UnresolvedLabel(s.clone()));
                },
            },
            None => {},
        }
        i += 1;
    }
    // Second sweep: every target is known to resolve; substitute each.
    let mut i: usize = 0;
    while i < instrs.len()
        invariant
            i <= instrs@.len(),
            instrs@.len() == old(instrs)@.len(),
            t == label_map@,
            forall|j: int| 0 <= j < instrs@.len() ==> !unresolvable(old(instrs)@[j], t),
            forall|j: int| 0 <= j < i ==> instrs@[j] == spec_resolved(old(instrs)@[j], t),
            forall|j: int| i <= j < instrs@.len() ==> instrs@[j] == old(instrs)@[j],
        decreases instrs@.len() - i,
    {
        let ghost prev = instrs@;
        let v = instrs.remove(i);
        match resolve_one(v, label_map) {
            Ok(v2) => {
                instrs.insert(i, v2);
                proof {
                    assert(instrs@ =~= prev.update(i as int, v2));
                }
            },
            Err(_) => {
                proof {
                    assert(false);
                }
            },
        }
        i += 1;
    }
    Ok(())
}

} // verus!
