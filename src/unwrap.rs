//! The message-layer unwrap engine: compression, signature and encryption
//! layers are peeled one at a time down to the literal data, within a fixed
//! depth bound.
//!
//! The engine decides; the OpenPGP engine that decompresses, decrypts and
//! parses reports what each layer is. Unwrapping is an explicit loop with a
//! depth counter, so adversarial nesting cannot exhaust the call stack.

use vstd::prelude::*;

use crate::error::SopError;

verus! {

/// The deepest layer that is unwrapped; a layer below it is malformed input.
pub const MAX_DEPTH: usize = 10;

/// What a message layer is.
#[derive(Clone, Copy, Debug, PartialEq, Eq, Structural)]
pub enum LayerKind {
    Compressed,
    Signed,
    Encrypted,
    Literal,
}

/// What to do after a layer.
#[derive(Clone, Copy, Debug, PartialEq, Eq, Structural)]
pub enum Step {
    /// Unwrap the layer and hand over the message inside it.
    Descend,
    /// The literal data is reached.
    Done,
    /// Unwrapping fails.
    Fail(SopError),
}

/// The step taken at a layer of a kind, found at a depth.
pub open spec fn step_at(depth: nat, kind: LayerKind, allow_encrypted: bool) -> Step {
    if depth > MAX_DEPTH {
        Step::Fail(SopError::BadData)
    } else {
        match kind {
            LayerKind::Literal => Step::Done,
            LayerKind::Encrypted => if allow_encrypted {
                Step::Descend
            } else {
                Step::Fail(SopError::BadData)
            },
            _ => Step::Descend,
        }
    }
}

/// What unwrapping a message found: the depth of its literal data and the
/// depths of its signature layers, outermost first.
pub struct Unwrapped {
    pub literal_depth: nat,
    pub signed_depths: Seq<nat>,
}

/// The outcome of unwrapping the layers, from the outermost, that start at
/// `depth`. Layers that end before literal data are malformed.
pub open spec fn walk(layers: Seq<LayerKind>, depth: nat, allow_encrypted: bool) -> Result<
    Unwrapped,
    SopError,
>
    decreases layers.len(),
{
    if layers.len() == 0 {
        Err(SopError::BadData)
    } else {
        match step_at(depth, layers[0], allow_encrypted) {
            Step::Fail(e) => Err(e),
            Step::Done => Ok(Unwrapped { literal_depth: depth, signed_depths: Seq::empty() }),
            Step::Descend => match walk(layers.skip(1), depth + 1, allow_encrypted) {
                Err(e) => Err(e),
                Ok(u) => Ok(
                    Unwrapped {
                        literal_depth: u.literal_depth,
                        signed_depths: if layers[0] == LayerKind::Signed {
                            seq![depth].add(u.signed_depths)
                        } else {
                            u.signed_depths
                        },
                    },
                ),
            },
        }
    }
}

/// The state of one unwrapping pass.
pub struct Unwrapper {
    /// Depth of the next layer.
    pub depth: usize,
    /// Depths of the signature layers passed, outermost first.
    pub signed_depths: Vec<usize>,
    /// Whether encryption layers may be unwrapped.
    pub allow_encrypted: bool,
    /// Whether the pass has ended.
    pub finished: bool,
}

impl Unwrapper {
    /// A pass that starts at the outermost layer.
    pub fn new(allow_encrypted: bool) -> (r: Unwrapper)
        ensures
            r.depth == 0,
            r.signed_depths@.len() == 0,
            r.allow_encrypted == allow_encrypted,
            !r.finished,
    {
        Unwrapper { depth: 0, signed_depths: Vec::new(), allow_encrypted, finished: false }
    }

    /// Decides what to do with the next layer.
    pub fn step(&mut self, kind: LayerKind) -> (r: Step)
        requires
            !old(self).finished,
            old(self).depth <= MAX_DEPTH + 1,
        ensures
            r == step_at(old(self).depth as nat, kind, old(self).allow_encrypted),
            final(self).allow_encrypted == old(self).allow_encrypted,
            r == Step::Descend ==> final(self).depth == old(self).depth + 1 && !final(self).finished,
            r != Step::Descend ==> final(self).depth == old(self).depth && final(self).finished,
            final(self).signed_depths@ == if r == Step::Descend && kind == LayerKind::Signed {
                old(self).signed_depths@.push(old(self).depth)
            } else {
                old(self).signed_depths@
            },
    {
        if self.depth > MAX_DEPTH {
            self.finished = true;
            return Step::Fail(SopError::BadData);
        }
        match kind {
            LayerKind::Literal => {
                self.finished = true;
                Step::Done
            },
            LayerKind::Encrypted => {
                if self.allow_encrypted {
                    self.depth = self.depth + 1;
                    Step::Descend
                } else {
                    self.finished = true;
                    Step::Fail(SopError::BadData)
                }
            },
            LayerKind::Signed => {
                self.signed_depths.push(self.depth);
                self.depth = self.depth + 1;
                Step::Descend
            },
            LayerKind::Compressed => {
                self.depth = self.depth + 1;
                Step::Descend
            },
        }
    }
}

/// The depths as natural numbers.
pub open spec fn nat_depths(s: Seq<usize>) -> Seq<nat> {
    Seq::new(s.len(), |i: int| s[i] as nat)
}

/// Unwraps a message whose layers are known in full, outermost first.
pub fn unwrap_layers(layers: &Vec<LayerKind>, allow_encrypted: bool) -> (r: Result<
    (usize, Vec<usize>),
    SopError,
>)
    ensures
        match walk(layers@, 0, allow_encrypted) {
            Err(e) => r == Err::<(usize, Vec<usize>), SopError>(e),
            Ok(u) => (r matches Ok(p) && p.0 as nat == u.literal_depth && nat_depths(p.1@)
                == u.signed_depths),
        },
{
    let mut u = Unwrapper::new(allow_encrypted);
    let mut i: usize = 0;
    proof {
        assert(layers@.skip(0) =~= layers@);
        match walk(layers@, 0, allow_encrypted) {
            Ok(w) => {
                assert(nat_depths(u.signed_depths@).add(w.signed_depths) =~= w.signed_depths);
            },
            Err(_) => {},
        }
    }
    while i < layers.len()
        invariant
            i <= layers.len(),
            u.depth == i,
            !u.finished,
            u.allow_encrypted == allow_encrypted,
            i <= MAX_DEPTH + 1,
            match walk(layers@, 0, allow_encrypted) {
                Err(e) => walk(layers@.skip(i as int), i as nat, allow_encrypted) == Err::<
                    Unwrapped,
                    SopError,
                >(e),
                Ok(w) => (walk(layers@.skip(i as int), i as nat, allow_encrypted) matches Ok(
                    v,
                ) && v.literal_depth == w.literal_depth && w.signed_depths == nat_depths(
                    u.signed_depths@,
                ).add(v.signed_depths)),
            },
        decreases layers.len() - i,
    {
        let kind = layers[i];
        let ghost before = u.signed_depths@;
        proof {
            let rest = layers@.skip(i as int);
            assert(rest.len() > 0);
            assert(rest[0] == kind);
            assert(rest.skip(1) == layers@.skip(i + 1));
        }
        let s = u.step(kind);
        match s {
            Step::Descend => {
                proof {
                    let rest = layers@.skip(i as int);
                    if kind == LayerKind::Signed {
                        assert(nat_depths(u.signed_depths@) =~= nat_depths(before).push(i as nat));
                    } else {
                        assert(nat_depths(u.signed_depths@) =~= nat_depths(before));
                    }
                    match walk(layers@, 0, allow_encrypted) {
                        Ok(w) => {
                            let v = walk(layers@.skip(i + 1), (i + 1) as nat, allow_encrypted)->Ok_0;
                            if kind == LayerKind::Signed {
                                assert(nat_depths(before).add(seq![i as nat].add(v.signed_depths))
                                    =~= nat_depths(before).push(i as nat).add(v.signed_depths));
                            }
                        },
                        Err(_) => {},
                    }
                }
                i = i + 1;
            },
            Step::Done => {
                proof {
                    match walk(layers@, 0, allow_encrypted) {
                        Ok(w) => {
                            assert(nat_depths(u.signed_depths@).add(Seq::<nat>::empty())
                                =~= nat_depths(u.signed_depths@));
                        },
                        Err(_) => {},
                    }
                }
                return Ok((u.depth, u.signed_depths));
            },
            Step::Fail(e) => {
                return Err(e);
            },
        }
        if i > MAX_DEPTH {
            proof {
                let rest = layers@.skip(i as int);
                if rest.len() > 0 {
                    assert(step_at(i as nat, rest[0], allow_encrypted) == Step::Fail(
                        SopError::BadData,
                    ));
                }
            }
            return Err(SopError::BadData);
        }
    }
    proof {
        assert(layers@.skip(i as int).len() == 0);
    }
    Err(SopError::BadData)
}

/// `k` compression layers around literal data.
pub open spec fn nested_compressed(k: nat) -> Seq<LayerKind> {
    Seq::new(k, |i: int| LayerKind::Compressed).push(LayerKind::Literal)
}

proof fn lemma_walk_compressed_from(k: nat, depth: nat, allow_encrypted: bool)
    ensures
        walk(nested_compressed(k), depth, allow_encrypted) is Ok <==> depth + k <= MAX_DEPTH,
        depth + k > MAX_DEPTH ==> walk(nested_compressed(k), depth, allow_encrypted) == Err::<
            Unwrapped,
            SopError,
        >(SopError::BadData),
    decreases k,
{
    if k > 0 {
        assert(nested_compressed(k)[0] == LayerKind::Compressed);
        assert(nested_compressed(k).skip(1) =~= nested_compressed((k - 1) as nat));
        lemma_walk_compressed_from((k - 1) as nat, depth + 1, allow_encrypted);
    } else {
        assert(nested_compressed(k)[0] == LayerKind::Literal);
    }
}

/// Literal data under at most ten compression layers unwraps; under eleven
/// or more it is malformed input.
pub proof fn lemma_depth_bound(k: nat, allow_encrypted: bool)
    ensures
        k <= 10 ==> walk(nested_compressed(k), 0, allow_encrypted) is Ok,
        k > 10 ==> walk(nested_compressed(k), 0, allow_encrypted) == Err::<Unwrapped, SopError>(
            SopError::BadData,
        ),
{
    lemma_walk_compressed_from(k, 0, allow_encrypted);
}

/// Configuration of splitting an inline-signed message into its data and
/// its signatures.
pub struct InlineDetach {}

impl InlineDetach {
    /// An inline-detach operation.
    pub fn new() -> (r: InlineDetach) {
        InlineDetach {  }
    }

    /// Unwraps the layers of a signed message: compression and signature
    /// layers are passed, and an encryption layer is malformed input.
    pub fn message(&self, layers: &Vec<LayerKind>) -> (r: Result<(usize, Vec<usize>), SopError>)
        ensures
            match walk(layers@, 0, false) {
                Err(e) => r == Err::<(usize, Vec<usize>), SopError>(e),
                Ok(u) => (r matches Ok(p) && p.0 as nat == u.literal_depth && nat_depths(p.1@)
                    == u.signed_depths),
            },
    {
        unwrap_layers(layers, false)
    }
}

} // verus!
