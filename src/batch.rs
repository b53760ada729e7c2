use vstd::prelude::*;

use crate::sprite::TextureId;

verus! {

/// The sprites of one frame that share a texture, by their position in the
/// frame's sprite list.
pub struct Batch {
    pub tex: TextureId,
    pub members: Vec<usize>,
}

/// A batch as a texture id and the positions it covers.
pub open spec fn batch_view(b: Batch) -> (u64, Seq<usize>) {
    (b.tex.0, b.members@)
}

pub open spec fn batches_view(v: Seq<Batch>) -> Seq<(u64, Seq<usize>)> {
    v.map_values(|b: Batch| batch_view(b))
}

/// The first batch at or after `from` whose texture is `tex`.
pub open spec fn batch_pos(g: Seq<(u64, Seq<usize>)>, tex: u64, from: nat) -> Option<nat>
    decreases g.len() - from,
{
    if from >= g.len() {
        None
    } else if g[from as int].0 == tex {
        Some(from)
    } else {
        batch_pos(g, tex, from + 1)
    }
}

/// Sprites grouped by texture: one batch per texture, in the order in which
/// each texture first appears, each listing its sprites' positions in order.
pub open spec fn grouped(texs: Seq<u64>) -> Seq<(u64, Seq<usize>)>
    decreases texs.len(),
{
    if texs.len() == 0 {
        Seq::empty()
    } else {
        let g = grouped(texs.drop_last());
        let i = (texs.len() - 1) as usize;
        let t = texs.last();
        match batch_pos(g, t, 0) {
            Some(j) => g.update(j as int, (t, g[j as int].1.push(i))),
            None => g.push((t, seq![i])),
        }
    }
}

proof fn lemma_batch_pos_bounds(g: Seq<(u64, Seq<usize>)>, tex: u64, from: nat)
    ensures
        match batch_pos(g, tex, from) {
            Some(j) => from <= j < g.len() && g[j as int].0 == tex,
            None => forall|k: int| from <= k < g.len() ==> g[k].0 != tex,
        },
    decreases g.len() - from,
{
    if from < g.len() && g[from as int].0 != tex {
        lemma_batch_pos_bounds(g, tex, from + 1);
    }
}

/// Groups a frame's sprites by texture; `texs[i]` is the texture of sprite
/// `i`. One instanced draw per returned batch then covers every sprite.
pub fn group_by_texture(texs: &Vec<TextureId>) -> (r: Vec<Batch>)
    ensures
        batches_view(r@) == grouped(texs@.map_values(|t: TextureId| t.0)),
{
    let ghost keys = texs@.map_values(|t: TextureId| t.0);
    let mut out: Vec<Batch> = Vec::new();
    let mut i: usize = 0;
    while i < texs.len()
        invariant
            i <= texs@.len(),
            keys == texs@.map_values(|t: TextureId| t.0),
            batches_view(out@) == grouped(keys.take(i as int)),
        decreases texs@.len() - i,
    {
        let t = texs[i];
        let ghost g = batches_view(out@);
        proof {
            assert(keys.take(i + 1).drop_last() =~= keys.take(i as int));
            assert(keys.take(i + 1).last() == t.0);
        }
        let mut j: usize = 0;
        let mut found = false;
        while !found && j < out.len()
            invariant
                j <= out@.len(),
                g == batches_view(out@),
                found ==> j < out@.len() && batch_pos(g, t.0, 0) == Some(j as nat),
                !found ==> batch_pos(g, t.0, 0) == batch_pos(g, t.0, j as nat),
            decreases out@.len() - j + (if found { 0int } else { 1int }),
        {
            if out[j].tex.0 == t.0 {
                found = true;
            } else {
                j += 1;
            }
        }
        if found {
            proof {
                lemma_batch_pos_bounds(g, t.0, 0);
            }
            let ghost old_members = out@[j as int].members@;
            let ghost old_out = out@;
            out[j].members.push(i);
            proof {
                let want = g.update(j as int, (t.0, old_members.push(i)));
                assert forall|k: int| 0 <= k < out@.len() implies batches_view(out@)[k] == want[k] by {
                    if k != j {
                        assert(batches_view(old_out)[k] == batch_view(old_out[k]));
                    }
                }
                assert(batches_view(out@) =~= want);
            }
        } else {
            proof {
                assert(batch_pos(g, t.0, j as nat) == None::<nat>);
            }
            let mut members: Vec<usize> = Vec::new();
            members.push(i);
            out.push(Batch { tex: t, members });
            proof {
                assert(members@ =~= seq![i]);
                assert(batches_view(out@) =~= g.push((t.0, seq![i])));
            }
        }
        i += 1;
    }
    proof {
        assert(keys.take(texs@.len() as int) =~= keys);
    }
    out
}

} // verus!
