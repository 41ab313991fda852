use cretonne::context::{Context, Outcome, Pass, Step};
use cretonne::entity_ref::EntityRef;
use cretonne::ir::entities::{AnyEntity, Ebb, Inst};
use cretonne::isa::TargetIsa;
use cretonne::result::{CtonError, CtonResult, VerifierError};
use cretonne::settings::Flags;

// Small stand-ins for the function and the passes, which the library does
// not hold. A block is a list of instructions; a jump names the block it
// goes to. The dominator tree follows the convention that a block which
// cannot be reached from the entry block has no place in the tree.

#[derive(Clone, Debug, PartialEq, Eq)]
enum Op {
    /// An instruction that every target has.
    Plain,
    /// An instruction that has to be expanded into two plain ones.
    Wide,
    Jump(usize),
    Return,
}

#[derive(Clone, Debug, PartialEq, Eq, Default)]
struct Function {
    blocks: Vec<Vec<Op>>,
}

#[derive(Debug, Default)]
struct Pipeline {
    func: Function,
    successors: Vec<Vec<Ebb>>,
    roots: Vec<Ebb>,
    reachable: Vec<bool>,
    idom: Vec<Option<Ebb>>,
    verifier_runs: usize,
    log: Vec<Pass>,
}

impl Pipeline {
    fn compute_cfg(&mut self) {
        self.successors = self
            .func
            .blocks
            .iter()
            .map(|block| {
                block
                    .iter()
                    .filter_map(|op| match *op {
                        Op::Jump(to) => Some(Ebb::new(to)),
                        _ => None,
                    })
                    .collect()
            })
            .collect();
    }

    fn compute_domtree(&mut self) {
        let n = self.successors.len();
        self.reachable = vec![false; n];
        self.idom = vec![None; n];
        self.roots = Vec::new();
        if n == 0 {
            return;
        }
        self.roots.push(Ebb::new(0));
        self.reachable[0] = true;
        let mut work = vec![0];
        while let Some(from) = work.pop() {
            for to in self.successors[from].clone() {
                if !self.reachable[to.index()] {
                    self.reachable[to.index()] = true;
                    self.idom[to.index()] = Some(Ebb::new(from));
                    work.push(to.index());
                }
            }
        }
    }

    fn legalize(&mut self) {
        for block in self.func.blocks.iter_mut() {
            let mut legal = Vec::new();
            for op in block.drain(..) {
                match op {
                    Op::Wide => {
                        legal.push(Op::Plain);
                        legal.push(Op::Plain);
                    }
                    op => legal.push(op),
                }
            }
            *block = legal;
        }
    }

    fn verify(&mut self) -> Result<(), VerifierError> {
        self.verifier_runs += 1;
        let mut inst = 0;
        for block in &self.func.blocks {
            inst += block.len();
            match block.last() {
                Some(&Op::Jump(_)) | Some(&Op::Return) => {}
                _ => {
                    return Err(VerifierError {
                        location: AnyEntity::from(Inst::new(inst.saturating_sub(1))),
                        message: "block does not end in a terminator".to_string(),
                    })
                }
            }
        }
        Ok(())
    }

    fn run(&mut self, pass: Pass) -> Outcome {
        self.log.push(pass);
        match pass {
            Pass::Flowgraph => self.compute_cfg(),
            Pass::DominatorTree => self.compute_domtree(),
            Pass::Legalize => self.legalize(),
            Pass::Verify => {
                if let Err(e) = self.verify() {
                    return Outcome::Rejected(e);
                }
            }
            Pass::Regalloc => {
                if self.func.blocks.len() > 1000 {
                    return Outcome::Failed(CtonError::ImplLimitExceeded);
                }
            }
        }
        Outcome::Completed
    }

    fn drive(&mut self, ctx: &mut Context, first: Step) -> CtonResult {
        let mut step = first;
        loop {
            match step {
                Step::Done(result) => return result,
                Step::Run(pass) => {
                    let outcome = self.run(pass);
                    step = ctx.resume(outcome);
                }
            }
        }
    }
}

fn isa(enable_verifier: bool) -> TargetIsa {
    TargetIsa::new("riscv".to_string(), Flags::new(enable_verifier))
}

#[test]
fn unreachable_block_is_not_in_the_tree() {
    let mut ctx = Context::new();
    let mut pipeline = Pipeline::default();
    pipeline.func = Function {
        blocks: vec![vec![Op::Plain, Op::Return], vec![Op::Return]],
    };
    let first = ctx.flowgraph();
    assert_eq!(pipeline.drive(&mut ctx, first), Ok(()));

    assert_eq!(pipeline.log, vec![Pass::Flowgraph, Pass::DominatorTree]);
    assert!(!pipeline.successors[0].contains(&Ebb::new(1)));
    assert!(pipeline.successors[0].is_empty());
    assert_eq!(pipeline.roots, vec![Ebb::new(0)]);
    assert_eq!(pipeline.reachable, vec![true, false]);
    assert_eq!(pipeline.idom, vec![None, None]);
    assert_eq!(ctx.awaiting(), None);
}

#[test]
fn dominator_tree_follows_the_new_flow_graph() {
    let mut ctx = Context::new();
    let mut pipeline = Pipeline::default();
    pipeline.func = Function {
        blocks: vec![vec![Op::Return], vec![Op::Return]],
    };
    let first = ctx.flowgraph();
    assert_eq!(pipeline.drive(&mut ctx, first), Ok(()));
    assert_eq!(pipeline.reachable, vec![true, false]);

    // The function changes; nothing is up to date until the caller asks.
    pipeline.func.blocks[0] = vec![Op::Jump(1)];
    assert_eq!(pipeline.reachable, vec![true, false]);
    let first = ctx.flowgraph();
    assert_eq!(pipeline.drive(&mut ctx, first), Ok(()));
    assert_eq!(pipeline.successors[0], vec![Ebb::new(1)]);
    assert_eq!(pipeline.reachable, vec![true, true]);
    assert_eq!(pipeline.idom, vec![None, Some(Ebb::new(0))]);
}

#[test]
fn legalizing_a_legal_function_changes_nothing() {
    let legal = Function {
        blocks: vec![vec![Op::Plain, Op::Jump(1)], vec![Op::Plain, Op::Return]],
    };
    let mut ctx = Context::new();
    let mut pipeline = Pipeline::default();
    pipeline.func = legal.clone();
    let first = ctx.legalize(&isa(true));
    assert_eq!(pipeline.drive(&mut ctx, first), Ok(()));
    assert_eq!(pipeline.func, legal);
    assert_eq!(pipeline.log, vec![Pass::Legalize, Pass::Verify]);

    // Once legal, always legal.
    let first = ctx.legalize(&isa(true));
    assert_eq!(pipeline.drive(&mut ctx, first), Ok(()));
    assert_eq!(pipeline.func, legal);
}

#[test]
fn legalizing_expands_what_the_target_lacks() {
    let mut ctx = Context::new();
    let mut pipeline = Pipeline::default();
    pipeline.func = Function {
        blocks: vec![vec![Op::Wide, Op::Return]],
    };
    let first = ctx.legalize(&isa(false));
    assert_eq!(pipeline.drive(&mut ctx, first), Ok(()));
    assert_eq!(
        pipeline.func,
        Function {
            blocks: vec![vec![Op::Plain, Op::Plain, Op::Return]],
        }
    );
    assert_eq!(pipeline.log, vec![Pass::Legalize]);
    assert_eq!(pipeline.verifier_runs, 0);
}

#[test]
fn verify_if_on_a_function_without_terminator() {
    let malformed = Function {
        blocks: vec![vec![Op::Plain, Op::Plain]],
    };
    let expected = VerifierError {
        location: AnyEntity::Inst(Inst::new(1)),
        message: "block does not end in a terminator".to_string(),
    };

    let mut ctx = Context::new();
    let mut pipeline = Pipeline::default();
    pipeline.func = malformed.clone();
    let first = ctx.verify_if(&isa(false));
    assert_eq!(pipeline.drive(&mut ctx, first), Ok(()));
    assert_eq!(pipeline.verifier_runs, 0);
    assert!(pipeline.log.is_empty());

    let first = ctx.verify_if(&isa(true));
    assert_eq!(
        pipeline.drive(&mut ctx, first),
        Err(CtonError::Verifier(expected.clone()))
    );
    assert_eq!(pipeline.verifier_runs, 1);

    let first = ctx.verify(None);
    assert_eq!(
        pipeline.drive(&mut ctx, first),
        Err(CtonError::Verifier(expected.clone()))
    );
    assert_eq!(pipeline.verifier_runs, 2);
    assert_eq!(expected.to_string(), "inst1: block does not end in a terminator");
}

#[test]
fn legalize_fails_where_the_verifier_does() {
    let mut ctx = Context::new();
    let mut pipeline = Pipeline::default();
    pipeline.func = Function {
        blocks: vec![vec![Op::Wide]],
    };
    let first = ctx.legalize(&isa(true));
    let result = pipeline.drive(&mut ctx, first);
    assert!(matches!(result, Err(CtonError::Verifier(_))));
    // The function was legalized all the same.
    assert_eq!(pipeline.func.blocks, vec![vec![Op::Plain, Op::Plain]]);
    assert_eq!(ctx.awaiting(), None);
}

#[test]
fn regalloc_before_flowgraph() {
    let mut ctx = Context::new();
    let mut pipeline = Pipeline::default();
    let first = ctx.regalloc(&isa(true));
    assert_eq!(pipeline.drive(&mut ctx, first), Ok(()));
    assert_eq!(pipeline.log, vec![Pass::Regalloc]);
    assert_eq!(pipeline.func, Function::default());
    assert!(pipeline.successors.is_empty());
    assert!(pipeline.roots.is_empty());
    assert_eq!(ctx.awaiting(), None);

    // The context goes on to serve as if nothing had happened.
    pipeline.func = Function {
        blocks: vec![vec![Op::Return]],
    };
    let first = ctx.flowgraph();
    assert_eq!(pipeline.drive(&mut ctx, first), Ok(()));
    assert_eq!(pipeline.roots, vec![Ebb::new(0)]);
}

#[test]
fn whole_pipeline_in_order() {
    let target = isa(true);
    let mut ctx = Context::new();
    let mut pipeline = Pipeline::default();
    pipeline.func = Function {
        blocks: vec![vec![Op::Wide, Op::Jump(1)], vec![Op::Return]],
    };
    let first = ctx.flowgraph();
    assert_eq!(pipeline.drive(&mut ctx, first), Ok(()));
    let first = ctx.legalize(&target);
    assert_eq!(pipeline.drive(&mut ctx, first), Ok(()));
    let first = ctx.flowgraph();
    assert_eq!(pipeline.drive(&mut ctx, first), Ok(()));
    let first = ctx.verify_if(&target);
    assert_eq!(pipeline.drive(&mut ctx, first), Ok(()));
    let first = ctx.regalloc(&target);
    assert_eq!(pipeline.drive(&mut ctx, first), Ok(()));
    assert_eq!(
        pipeline.log,
        vec![
            Pass::Flowgraph,
            Pass::DominatorTree,
            Pass::Legalize,
            Pass::Verify,
            Pass::Flowgraph,
            Pass::DominatorTree,
            Pass::Verify,
            Pass::Regalloc,
        ]
    );
}
