//! The shape discipline of the restoration network.
//!
//! The network is four sequential 2D convolutions, kernel 3 x 3, explicit
//! padding 1, stride 1, channels 3 -> 64 -> 64 -> 32 -> 3, ReLU after each of
//! the first three and a tanh squashing the output into [-1, 1]. The
//! numerical passes live in the outside tensor backend; what the library
//! pins down is the layer stack and the shape arithmetic: padding-1 kernel-3
//! convolutions preserve the spatial size, so the whole forward pass maps
//! `[n, 3, h, w]` to `[n, 3, h, w]`.

use vstd::prelude::*;

verus! {

/// The shape of a rank-4 tensor `[n, c, h, w]`.
#[derive(Clone, Copy, Debug, PartialEq, Eq, Structural)]
pub struct TensorShape {
    pub n: usize,
    pub c: usize,
    pub h: usize,
    pub w: usize,
}

/// One 2D convolution layer, stride 1.
#[derive(Clone, Copy, Debug, PartialEq, Eq, Structural)]
pub struct ConvLayer {
    pub in_channels: usize,
    pub out_channels: usize,
    pub kernel: usize,
    pub padding: usize,
}

/// The spatial size a stride-1 convolution produces from size `d`.
pub open spec fn conv_out_dim(d: int, k: int, p: int) -> int {
    d + 2 * p - k + 1
}

impl ConvLayer {
    /// The layer accepts the shape: channels match, both spatial sizes
    /// admit at least one kernel position, and the results fit the machine.
    pub open spec fn accepts(self, s: TensorShape) -> bool {
        &&& s.c == self.in_channels
        &&& self.kernel >= 1
        &&& conv_out_dim(s.h as int, self.kernel as int, self.padding as int) >= 1
        &&& conv_out_dim(s.h as int, self.kernel as int, self.padding as int) <= usize::MAX
        &&& conv_out_dim(s.w as int, self.kernel as int, self.padding as int) >= 1
        &&& conv_out_dim(s.w as int, self.kernel as int, self.padding as int) <= usize::MAX
    }

    /// The shape the layer produces from an accepted input shape.
    pub open spec fn apply(self, s: TensorShape) -> TensorShape {
        TensorShape {
            n: s.n,
            c: self.out_channels,
            h: conv_out_dim(s.h as int, self.kernel as int, self.padding as int) as usize,
            w: conv_out_dim(s.w as int, self.kernel as int, self.padding as int) as usize,
        }
    }

    /// The output shape for one layer, or nothing when the input shape is
    /// rejected.
    pub fn output_shape(&self, s: &TensorShape) -> (r: Option<TensorShape>)
        ensures
            r == if self.accepts(*s) {
                Some(self.apply(*s))
            } else {
                None::<TensorShape>
            },
    {
        if s.c != self.in_channels || self.kernel < 1 {
            return None;
        }
        let h2: u128 = s.h as u128 + 2 * (self.padding as u128);
        let w2: u128 = s.w as u128 + 2 * (self.padding as u128);
        let k: u128 = self.kernel as u128;
        if h2 < k || w2 < k {
            return None;
        }
        let oh: u128 = h2 - k + 1;
        let ow: u128 = w2 - k + 1;
        if oh > usize::MAX as u128 || ow > usize::MAX as u128 {
            return None;
        }
        Some(TensorShape { n: s.n, c: self.out_channels, h: oh as usize, w: ow as usize })
    }
}

/// The shape after running layers `i ..` of the stack on `s`.
pub open spec fn shape_from(layers: Seq<ConvLayer>, i: int, s: TensorShape) -> Option<TensorShape>
    decreases layers.len() - i,
{
    if i < 0 || i >= layers.len() {
        Some(s)
    } else if layers[i].accepts(s) {
        shape_from(layers, i + 1, layers[i].apply(s))
    } else {
        None
    }
}

/// The shape after the whole stack.
pub open spec fn shape_after(layers: Seq<ConvLayer>, s: TensorShape) -> Option<TensorShape> {
    shape_from(layers, 0, s)
}

/// The fixed layer stack of the restoration network.
pub open spec fn standard_layers() -> Seq<ConvLayer> {
    seq![
        ConvLayer { in_channels: 3, out_channels: 64, kernel: 3, padding: 1 },
        ConvLayer { in_channels: 64, out_channels: 64, kernel: 3, padding: 1 },
        ConvLayer { in_channels: 64, out_channels: 32, kernel: 3, padding: 1 },
        ConvLayer { in_channels: 32, out_channels: 3, kernel: 3, padding: 1 },
    ]
}

/// The restoration network as its layer stack.
pub struct Model {
    pub layers: Vec<ConvLayer>,
}

impl Model {
    /// The standard four-layer stack.
    pub fn new() -> (m: Model)
        ensures
            m.layers@ == standard_layers(),
    {
        let mut layers: Vec<ConvLayer> = Vec::new();
        layers.push(ConvLayer { in_channels: 3, out_channels: 64, kernel: 3, padding: 1 });
        layers.push(ConvLayer { in_channels: 64, out_channels: 64, kernel: 3, padding: 1 });
        layers.push(ConvLayer { in_channels: 64, out_channels: 32, kernel: 3, padding: 1 });
        layers.push(ConvLayer { in_channels: 32, out_channels: 3, kernel: 3, padding: 1 });
        proof {
            assert(layers@ =~= standard_layers());
        }
        Model { layers }
    }

    /// The shape the forward pass produces, or nothing when some layer
    /// rejects its input.
    pub fn forward_shape(&self, s: &TensorShape) -> (r: Option<TensorShape>)
        ensures
            r == shape_after(self.layers@, *s),
    {
        let mut cur: TensorShape = *s;
        let mut i: usize = 0;
        while i < self.layers.len()
            invariant
                i <= self.layers@.len(),
                shape_after(self.layers@, *s) == shape_from(self.layers@, i as int, cur),
            decreases self.layers@.len() - i,
        {
            match self.layers[i].output_shape(&cur) {
                Some(next) => {
                    cur = next;
                },
                None => {
                    return None;
                },
            }
            i = i + 1;
        }
        Some(cur)
    }
}

/// The forward pass of the standard stack preserves the shape of any batch
/// with three channels and positive spatial sizes that leave room for the
/// padding arithmetic: `[n, 3, h, w]` comes back as `[n, 3, h, w]`. The
/// output values land in [-1, 1] through the final tanh; that bound lives
/// in the numeric backend, outside this shape model.
pub proof fn lemma_forward_preserves_patch_shape(s: TensorShape)
    requires
        s.c == 3,
        s.h >= 1,
        s.w >= 1,
        s.h + 2 <= usize::MAX,
        s.w + 2 <= usize::MAX,
    ensures
        shape_after(standard_layers(), s) == Some(s),
{
    let ls = standard_layers();
    let s1 = ls[0].apply(s);
    let s2 = ls[1].apply(s1);
    let s3 = ls[2].apply(s2);
    let s4 = ls[3].apply(s3);
    assert(shape_from(ls, 0, s) == shape_from(ls, 1, s1));
    assert(shape_from(ls, 1, s1) == shape_from(ls, 2, s2));
    assert(shape_from(ls, 2, s2) == shape_from(ls, 3, s3));
    assert(shape_from(ls, 3, s3) == shape_from(ls, 4, s4));
    assert(s4 == s);
}

} // verus!
