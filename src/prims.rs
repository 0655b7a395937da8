use vstd::prelude::*;

verus! {

/// Position in an index buffer of corner `corner` of quad (`row`, `col`) in a grid of
/// quads `cols` wide, each quad being stored as six consecutive indices.
pub open spec fn quad_slot(cols: int, row: int, col: int, corner: int) -> int {
    6 * (row * cols + col) + corner
}

/// Vertex index of corner `corner` of quad (`row`, `col`) of a plane grid whose rows hold
/// `width` vertices: the quad is split into the triangles (v, v+1, v+w) and (v+1, v+w+1, v+w).
pub open spec fn plane_corner(width: int, row: int, col: int, corner: int) -> int {
    let v = row * width + col;
    if corner == 0 {
        v
    } else if corner == 1 || corner == 3 {
        v + 1
    } else if corner == 2 || corner == 5 {
        v + width
    } else {
        v + width + 1
    }
}

/// Quads earlier in row-major order have earlier slots.
proof fn lemma_quad_order(cols: int, row: int, col: int, i: int, j: int)
    requires
        0 <= col < cols,
        0 <= row,
        0 <= j,
        row < i || (row == i && col < j),
    ensures
        row * cols + col < i * cols + j,
{
    if row < i {
        assert(row * cols + cols <= i * cols) by (nonlinear_arith)
            requires
                row < i,
                0 <= cols,
        ;
    }
}

proof fn lemma_mul_le(a: int, b: int, c: int)
    requires
        a <= b,
        0 <= c,
    ensures
        a * c <= b * c,
{
    assert(a * c <= b * c) by (nonlinear_arith)
        requires
            a <= b,
            0 <= c,
    ;
}

proof fn lemma_mul_succ(a: int, c: int)
    ensures
        (a + 1) * c == a * c + c,
{
    assert((a + 1) * c == a * c + c) by (nonlinear_arith);
}

/// Index buffer of a grid plane of `width` by `height` vertices, two triangles per quad.
pub fn plane_index_buffer(width: usize, height: usize) -> (r: Vec<u32>)
    requires
        width >= 1,
        height >= 1,
        width * height <= 0x1_0000_0000,
    ensures
        r@.len() == 6 * ((height - 1) * (width - 1)),
        forall|row: int, col: int, corner: int|
            0 <= row < height - 1 && 0 <= col < width - 1 && 0 <= corner < 6 ==> #[trigger] r@[quad_slot(
                width - 1,
                row,
                col,
                corner,
            )] == plane_corner(width as int, row, col, corner),
{
    let cols: usize = width - 1;
    let rows: usize = height - 1;
    proof {
        lemma_mul_le(rows as int, height as int, width as int);
    }
    let mut indices: Vec<u32> = Vec::new();
    let mut i: usize = 0;
    let mut row_base: u64 = 0;
    let w: u64 = width as u64;
    while i < rows
        invariant
            cols == width - 1,
            rows == height - 1,
            rows * width <= width * height <= 0x1_0000_0000,
            0 <= i <= rows,
            row_base == i * width,
            w == width,
            indices@.len() == 6 * (i * cols),
            forall|row: int, col: int, corner: int|
                0 <= row < i && 0 <= col < cols && 0 <= corner < 6 ==> #[trigger] indices@[quad_slot(
                    cols as int,
                    row,
                    col,
                    corner,
                )] == plane_corner(width as int, row, col, corner),
        decreases rows - i,
    {
        let mut j: usize = 0;
        proof {
            lemma_mul_le(i + 1, rows as int, width as int);
            lemma_mul_le(i + 2, height as int, width as int);
            lemma_mul_succ(i as int, width as int);
            lemma_mul_succ(i + 1, width as int);
            lemma_mul_le(i + 1, rows as int, cols as int);
            lemma_mul_succ(i as int, cols as int);
        }
        while j < cols
            invariant
                cols == width - 1,
                rows == height - 1,
                0 <= i < rows,
                0 <= j <= cols,
                row_base == i * width,
                w == width,
                row_base + width <= rows * width,
                row_base + 2 * width <= width * height <= 0x1_0000_0000,
                (i + 1) * cols <= rows * cols,
                (i + 1) * cols == i * cols + cols,
                    indices@.len() == 6 * (i * cols + j),
                forall|row: int, col: int, corner: int|
                    0 <= row && 0 <= col < cols && 0 <= corner < 6 && (row < i || (row == i && col
                        < j)) ==> #[trigger] indices@[quad_slot(cols as int, row, col, corner)]
                        == plane_corner(width as int, row, col, corner),
            decreases cols - j,
        {
            let v: u64 = row_base + j as u64;
            let ghost prev = indices@;
            indices.push(v as u32);
            indices.push((v + 1) as u32);
            indices.push((v + w) as u32);
            indices.push((v + 1) as u32);
            indices.push((v + w + 1) as u32);
            indices.push((v + w) as u32);
            proof {
                assert forall|row: int, col: int, corner: int|
                    0 <= row && 0 <= col < cols && 0 <= corner < 6 && (row < i || (row == i && col
                        <= j)) implies #[trigger] indices@[quad_slot(cols as int, row, col, corner)]
                    == plane_corner(width as int, row, col, corner) by {
                    if row < i || col < j {
                        lemma_quad_order(cols as int, row, col, i as int, j as int);
                        assert(indices@[quad_slot(cols as int, row, col, corner)] == prev[quad_slot(
                            cols as int,
                            row,
                            col,
                            corner,
                        )]);
                    }
                }
            }
            j = j + 1;
        }
        row_base = row_base + w;
        i = i + 1;
    }
    indices
}


/// Number of indices of a UV sphere: two triangles for each quad between neighbouring
/// rings, one triangle per segment in each of the two polar caps.
pub open spec fn sphere_index_total(segments: int, rings: int) -> int {
    6 * (segments * (rings - 2) + segments)
}

/// Vertex index of segment `seg` of ring `ring` of a UV sphere; vertices 0 and 1 are the poles.
pub open spec fn ring_vertex(segments: int, ring: int, seg: int) -> int {
    ring * segments + seg + 2
}

/// The segment that follows `seg` around a ring.
pub open spec fn next_segment(segments: int, seg: int) -> int {
    if seg + 1 == segments {
        0
    } else {
        seg + 1
    }
}

/// Vertex index of corner `corner` of the quad between rings `ring` and `ring + 1` at
/// segment `seg`: the triangles (here, next, above) and (above next, above, next).
pub open spec fn sphere_quad_corner(segments: int, ring: int, seg: int, corner: int) -> int {
    let next = next_segment(segments, seg);
    if corner == 0 {
        ring_vertex(segments, ring, seg)
    } else if corner == 1 || corner == 5 {
        ring_vertex(segments, ring, next)
    } else if corner == 2 || corner == 4 {
        ring_vertex(segments, ring + 1, seg)
    } else {
        ring_vertex(segments, ring + 1, next)
    }
}

/// Position of corner `corner` of triangle `seg` of a polar cap: the bottom cap (`top` false)
/// follows the quads, the top cap follows the bottom one.
pub open spec fn cap_slot(segments: int, rings: int, top: bool, seg: int, corner: int) -> int {
    6 * (segments * (rings - 2)) + (if top { 3 * segments } else { 0 }) + 3 * seg + corner
}

/// Vertex index of corner `corner` of triangle `seg` of a polar cap. The bottom cap fans
/// around pole 0 over the first ring, the top cap around pole 1 over the last ring.
pub open spec fn cap_corner(segments: int, rings: int, top: bool, seg: int, corner: int) -> int {
    let next = next_segment(segments, seg);
    if !top {
        if corner == 0 {
            0
        } else if corner == 1 {
            ring_vertex(segments, 0, next)
        } else {
            ring_vertex(segments, 0, seg)
        }
    } else {
        if corner == 0 {
            1
        } else if corner == 1 {
            ring_vertex(segments, rings - 2, seg)
        } else {
            ring_vertex(segments, rings - 2, next)
        }
    }
}

/// Number of indices in the index buffer of a UV sphere.
pub fn sphere_index_count(segments: usize, rings: usize) -> (r: usize)
    requires
        rings >= 2,
        sphere_index_total(segments as int, rings as int) <= usize::MAX,
    ensures
        r == sphere_index_total(segments as int, rings as int),
{
    proof {
        lemma_mul_le(0, (rings - 2) as int, segments as int);
    }
    6 * (segments * (rings - 2) + segments)
}

/// Index buffer of a UV sphere of `segments` segments and `rings` rings: the quads between
/// neighbouring rings, ring by ring, then the bottom cap, then the top cap.
pub fn sphere_index_array(segments: usize, rings: usize) -> (r: Vec<u16>)
    requires
        rings >= 2,
        (rings - 1) * segments + 2 <= u16::MAX,
    ensures
        r@.len() == sphere_index_total(segments as int, rings as int),
        forall|ring: int, seg: int, corner: int|
            0 <= ring < rings - 2 && 0 <= seg < segments && 0 <= corner < 6 ==> #[trigger] r@[quad_slot(
                segments as int,
                ring,
                seg,
                corner,
            )] == sphere_quad_corner(segments as int, ring, seg, corner),
        forall|top: bool, seg: int, corner: int|
            0 <= seg < segments && 0 <= corner < 3 ==> #[trigger] r@[cap_slot(
                segments as int,
                rings as int,
                top,
                seg,
                corner,
            )] == cap_corner(segments as int, rings as int, top, seg, corner),
{
    let quad_rings: usize = rings - 2;
    proof {
        lemma_mul_le(quad_rings as int, (rings - 1) as int, segments as int);
    }
    let mut inds: Vec<u16> = Vec::new();
    let mut i: usize = 0;
    let mut offset: usize = 0;
    while i < quad_rings
        invariant
            quad_rings == rings - 2,
            (rings - 1) * segments + 2 <= u16::MAX,
            quad_rings * segments <= (rings - 1) * segments,
            0 <= i <= quad_rings,
            offset == i * segments,
            inds@.len() == 6 * (i * segments),
            forall|ring: int, seg: int, corner: int|
                0 <= ring < i && 0 <= seg < segments && 0 <= corner < 6 ==> #[trigger] inds@[quad_slot(
                    segments as int,
                    ring,
                    seg,
                    corner,
                )] == sphere_quad_corner(segments as int, ring, seg, corner),
        decreases quad_rings - i,
    {
        proof {
            lemma_mul_le(i + 2, (rings - 1) as int, segments as int);
            lemma_mul_succ(i as int, segments as int);
            lemma_mul_succ(i + 1, segments as int);
        }
        let mut j: usize = 0;
        while j < segments
            invariant
                quad_rings == rings - 2,
                0 <= i < quad_rings,
                0 <= j <= segments,
                offset == i * segments,
                offset + 2 * segments + 2 <= u16::MAX,
                (i + 1) * segments == i * segments + segments,
                inds@.len() == 6 * (i * segments + j),
                forall|ring: int, seg: int, corner: int|
                    0 <= ring && 0 <= seg < segments && 0 <= corner < 6 && (ring < i || (ring == i
                        && seg < j)) ==> #[trigger] inds@[quad_slot(
                        segments as int,
                        ring,
                        seg,
                        corner,
                    )] == sphere_quad_corner(segments as int, ring, seg, corner),
            decreases segments - j,
        {
            let next: usize = if j + 1 == segments { 0 } else { j + 1 };
            let here: u16 = (offset + j + 2) as u16;
            let here_next: u16 = (offset + next + 2) as u16;
            let above: u16 = (offset + segments + j + 2) as u16;
            let above_next: u16 = (offset + segments + next + 2) as u16;
            let ghost prev = inds@;
            inds.push(here);
            inds.push(here_next);
            inds.push(above);
            inds.push(above_next);
            inds.push(above);
            inds.push(here_next);
            proof {
                assert forall|ring: int, seg: int, corner: int|
                    0 <= ring && 0 <= seg < segments && 0 <= corner < 6 && (ring < i || (ring == i
                        && seg <= j)) implies #[trigger] inds@[quad_slot(
                    segments as int,
                    ring,
                    seg,
                    corner,
                )] == sphere_quad_corner(segments as int, ring, seg, corner) by {
                    if ring < i || seg < j {
                        lemma_quad_order(segments as int, ring, seg, i as int, j as int);
                        assert(inds@[quad_slot(segments as int, ring, seg, corner)] == prev[quad_slot(
                            segments as int,
                            ring,
                            seg,
                            corner,
                        )]);
                    }
                }
            }
            j = j + 1;
        }
        offset = offset + segments;
        i = i + 1;
    }
    let ghost quads = inds@;
    assert(quads.len() == 6 * (segments * (rings - 2))) by {
        assert(quad_rings * segments == segments * quad_rings) by (nonlinear_arith);
    }
    let mut k: usize = 0;
    while k < segments
        invariant
            quad_rings == rings - 2,
            (rings - 1) * segments + 2 <= u16::MAX,
            0 <= k <= segments,
            quads.len() == 6 * (segments * (rings - 2)),
            inds@.len() == quads.len() + 3 * k,
            forall|x: int| 0 <= x < quads.len() ==> #[trigger] inds@[x] == quads[x],
            forall|seg: int, corner: int|
                0 <= seg < k && 0 <= corner < 3 ==> #[trigger] inds@[cap_slot(
                    segments as int,
                    rings as int,
                    false,
                    seg,
                    corner,
                )] == cap_corner(segments as int, rings as int, false, seg, corner),
        decreases segments - k,
    {
        let next: usize = if k + 1 == segments { 0 } else { k + 1 };
        proof {
            lemma_mul_le(1, (rings - 1) as int, segments as int);
        }
        inds.push(0);
        inds.push((next + 2) as u16);
        inds.push((k + 2) as u16);
        k = k + 1;
    }
    let ghost bottom = inds@;
    let top_offset: usize = offset;
    proof {
        lemma_mul_succ(quad_rings as int, segments as int);
    }
    let mut k: usize = 0;
    while k < segments
        invariant
            quad_rings == rings - 2,
            top_offset == quad_rings * segments,
            top_offset + segments + 2 <= u16::MAX,
            0 <= k <= segments,
            quads.len() == 6 * (segments * (rings - 2)),
            bottom.len() == quads.len() + 3 * segments,
            inds@.len() == bottom.len() + 3 * k,
            forall|x: int| 0 <= x < bottom.len() ==> #[trigger] inds@[x] == bottom[x],
            forall|seg: int, corner: int|
                0 <= seg < k && 0 <= corner < 3 ==> #[trigger] inds@[cap_slot(
                    segments as int,
                    rings as int,
                    true,
                    seg,
                    corner,
                )] == cap_corner(segments as int, rings as int, true, seg, corner),
        decreases segments - k,
    {
        let next: usize = if k + 1 == segments { 0 } else { k + 1 };
        inds.push(1);
        inds.push((top_offset + k + 2) as u16);
        inds.push((top_offset + next + 2) as u16);
        k = k + 1;
    }
    proof {
        assert forall|ring: int, seg: int, corner: int|
            0 <= ring < rings - 2 && 0 <= seg < segments && 0 <= corner < 6 implies #[trigger] inds@[quad_slot(
            segments as int,
            ring,
            seg,
            corner,
        )] == sphere_quad_corner(segments as int, ring, seg, corner) by {
            lemma_quad_order(segments as int, ring, seg, quad_rings as int, 0);
            assert(bottom[quad_slot(segments as int, ring, seg, corner)] == quads[quad_slot(
                segments as int,
                ring,
                seg,
                corner,
            )]);
        }
        assert forall|top: bool, seg: int, corner: int|
            0 <= seg < segments && 0 <= corner < 3 implies #[trigger] inds@[cap_slot(
            segments as int,
            rings as int,
            top,
            seg,
            corner,
        )] == cap_corner(segments as int, rings as int, top, seg, corner) by {
            if !top {
                assert(bottom[cap_slot(segments as int, rings as int, false, seg, corner)]
                    == cap_corner(segments as int, rings as int, false, seg, corner));
            }
        }
    }
    inds
}

/// Index buffer of the skybox cube: two triangles for each of the six faces.
pub fn skybox_cube_index_buffer() -> (r: Vec<u32>)
    ensures
        r@ == seq![
            0u32, 1, 2, 3, 2, 1,
            0, 2, 4, 2, 5, 4,
            3, 1, 6, 7, 3, 6,
            5, 7, 4, 7, 6, 4,
            4, 1, 0, 4, 6, 1,
            7, 5, 2, 7, 2, 3,
        ],
{
    let r: Vec<u32> = vec![
        0, 1, 2, 3, 2, 1,
        0, 2, 4, 2, 5, 4,
        3, 1, 6, 7, 3, 6,
        5, 7, 4, 7, 6, 4,
        4, 1, 0, 4, 6, 1,
        7, 5, 2, 7, 2, 3,
    ];
    assert(r@ =~= seq![
        0u32, 1, 2, 3, 2, 1,
        0, 2, 4, 2, 5, 4,
        3, 1, 6, 7, 3, 6,
        5, 7, 4, 7, 6, 4,
        4, 1, 0, 4, 6, 1,
        7, 5, 2, 7, 2, 3,
    ]);
    r
}

} // verus!
