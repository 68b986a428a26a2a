use vstd::prelude::*;

verus! {

/// Geometry handed to the renderer: vertex pairs drawn as line segments, and
/// vertices drawn as points. The vertex type is the renderer's own.
#[derive(Clone)]
pub struct RenderMsg<V> {
    pub lines: Vec<V>,
    pub points: Vec<V>,
}

impl<V: Copy> RenderMsg<V> {
    /// A message with no geometry.
    pub fn new() -> (r: Self)
        ensures
            r.lines@ == Seq::<V>::empty(),
            r.points@ == Seq::<V>::empty(),
    {
        RenderMsg { lines: Vec::new(), points: Vec::new() }
    }

    /// Adds the geometry of `other` after this message's own.
    pub fn append(&mut self, other: &RenderMsg<V>)
        ensures
            final(self).lines@ == old(self).lines@ + other.lines@,
            final(self).points@ == old(self).points@ + other.points@,
    {
        append_all(&mut self.lines, &other.lines);
        append_all(&mut self.points, &other.points);
    }
}

impl<V: Copy> Default for RenderMsg<V> {
    fn default() -> (r: Self)
        ensures
            r.lines@ == Seq::<V>::empty(),
            r.points@ == Seq::<V>::empty(),
    {
        RenderMsg::new()
    }
}

fn append_all<V: Copy>(dst: &mut Vec<V>, src: &Vec<V>)
    ensures
        final(dst)@ == old(dst)@ + src@,
{
    let n = src.len();
    let mut i: usize = 0;
    while i < n
        invariant
            n == src@.len(),
            i <= n,
            dst@ =~= old(dst)@ + src@.subrange(0, i as int),
        decreases n - i,
    {
        dst.push(src[i]);
        i += 1;
    }
    assert(src@.subrange(0, n as int) =~= src@);
}

} // verus!
