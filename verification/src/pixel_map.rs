use crate::wire::{ImageData, Size2DI};
use vstd::prelude::*;

verus! {

/// One cell of a binary grid. On the wire a cleared bit is a filled cell and a
/// set bit an empty one.
#[derive(Clone, Copy, Debug, PartialEq, Eq, Structural)]
pub enum Pixel {
    Filled,
    Empty,
}

impl Pixel {
    /// The cell that a wire value stands for, if it stands for one.
    pub open spec fn of_code(n: u8) -> Option<Pixel> {
        if n == 0 {
            Some(Pixel::Filled)
        } else if n == 1 {
            Some(Pixel::Empty)
        } else {
            None
        }
    }

    /// The wire value of this cell.
    pub open spec fn code(self) -> u8 {
        match self {
            Pixel::Filled => 0,
            Pixel::Empty => 1,
        }
    }

    pub fn from_u8(n: u8) -> (r: Option<Pixel>)
        ensures
            r == Pixel::of_code(n),
            r matches Some(p) ==> p.code() == n,
    {
        match n {
            0 => Some(Pixel::Filled),
            1 => Some(Pixel::Empty),
            _ => None,
        }
    }

    pub fn to_u8(self) -> (n: u8)
        ensures
            n == self.code(),
            Pixel::of_code(n) == Some(self),
    {
        match self {
            Pixel::Filled => 0,
            Pixel::Empty => 1,
        }
    }

    pub fn is_empty(self) -> (r: bool)
        ensures
            r <==> self == Pixel::Empty,
    {
        matches!(self, Pixel::Empty)
    }

    pub fn is_set(self) -> (r: bool)
        ensures
            r <==> self == Pixel::Filled,
    {
        matches!(self, Pixel::Filled)
    }

    /// The digit that stands for this cell when a grid is printed: `0` for an
    /// empty cell, `1` for a filled one.
    pub fn digit(self) -> (c: char)
        ensures
            c == (if self == Pixel::Empty { '0' } else { '1' }),
    {
        match self {
            Pixel::Empty => '0',
            Pixel::Filled => '1',
        }
    }
}

impl Default for Pixel {
    fn default() -> (r: Pixel)
        ensures
            r == Pixel::Empty,
    {
        Pixel::Empty
    }
}

/// What the player knows of one cell of the map.
#[derive(Clone, Copy, Debug, PartialEq, Eq, Structural)]
pub enum Visibility {
    Hidden,
    Fogged,
    Visible,
    FullHidden,
}

impl Visibility {
    /// The state that a wire value stands for, if it stands for one.
    pub open spec fn of_code(n: u8) -> Option<Visibility> {
        if n == 0 {
            Some(Visibility::Hidden)
        } else if n == 1 {
            Some(Visibility::Fogged)
        } else if n == 2 {
            Some(Visibility::Visible)
        } else if n == 3 {
            Some(Visibility::FullHidden)
        } else {
            None
        }
    }

    /// The wire value of this state.
    pub open spec fn code(self) -> u8 {
        match self {
            Visibility::Hidden => 0,
            Visibility::Fogged => 1,
            Visibility::Visible => 2,
            Visibility::FullHidden => 3,
        }
    }

    pub fn from_u8(n: u8) -> (r: Option<Visibility>)
        ensures
            r == Visibility::of_code(n),
            r matches Some(v) ==> v.code() == n,
            r is Some <==> n <= 3,
    {
        match n {
            0 => Some(Visibility::Hidden),
            1 => Some(Visibility::Fogged),
            2 => Some(Visibility::Visible),
            3 => Some(Visibility::FullHidden),
            _ => None,
        }
    }

    pub fn to_u8(self) -> (n: u8)
        ensures
            n == self.code(),
            Visibility::of_code(n) == Some(self),
    {
        match self {
            Visibility::Hidden => 0,
            Visibility::Fogged => 1,
            Visibility::Visible => 2,
            Visibility::FullHidden => 3,
        }
    }

    pub fn is_hidden(self) -> (r: bool)
        ensures
            r <==> self == Visibility::Hidden,
    {
        matches!(self, Visibility::Hidden)
    }

    pub fn is_fogged(self) -> (r: bool)
        ensures
            r <==> self == Visibility::Fogged,
    {
        matches!(self, Visibility::Fogged)
    }

    pub fn is_visible(self) -> (r: bool)
        ensures
            r <==> self == Visibility::Visible,
    {
        matches!(self, Visibility::Visible)
    }

    pub fn is_full_hidden(self) -> (r: bool)
        ensures
            r <==> self == Visibility::FullHidden,
    {
        matches!(self, Visibility::FullHidden)
    }

    pub fn is_explored(self) -> (r: bool)
        ensures
            r <==> self != Visibility::Hidden,
    {
        !matches!(self, Visibility::Hidden)
    }
}

impl Default for Visibility {
    fn default() -> (r: Visibility)
        ensures
            r == Visibility::Hidden,
    {
        Visibility::Hidden
    }
}

/// Why a grid image was rejected.
#[derive(Clone, Copy, Debug, PartialEq, Eq, Structural)]
pub enum DecodeError {
    /// The buffer does not hold exactly as many cells as the header declares.
    Shape,
    /// The buffer holds this byte, which stands for no visibility state.
    Visibility(u8),
}

/// The cell that bit `i` of a wire byte stands for, bit 0 being the most
/// significant one.
pub open spec fn bit_pixel(n: u8, i: int) -> Pixel {
    if (n >> ((7 - i) as u8)) & 1 == 0 {
        Pixel::Filled
    } else {
        Pixel::Empty
    }
}

/// The eight cells of one wire byte, most significant bit first.
pub open spec fn unpack_byte(n: u8) -> Seq<Pixel> {
    Seq::new(8, |i: int| bit_pixel(n, i))
}

/// Cell `k` of a bit-packed buffer.
pub open spec fn pixel_at(data: Seq<u8>, k: int) -> Pixel {
    bit_pixel(data[k / 8], k % 8)
}

/// All the cells of a bit-packed buffer, in wire order.
pub open spec fn unpack(data: Seq<u8>) -> Seq<Pixel> {
    Seq::new(8 * data.len(), |k: int| pixel_at(data, k))
}

/// Unpacks one wire byte bit by bit, whatever its value.
pub fn to_binary_bitwise(n: u8) -> (r: Vec<Pixel>)
    ensures
        r@ == unpack_byte(n),
{
    let mut cells: Vec<Pixel> = Vec::new();
    let mut i: u8 = 0;
    while i < 8
        invariant
            i <= 8,
            cells@.len() == i,
            forall|k: int| 0 <= k < i ==> cells@[k] == bit_pixel(n, k),
        decreases 8 - i,
    {
        let shift: u8 = 7 - i;
        let bit: u8 = (n >> shift) & 1;
        assert(bit == 0 || bit == 1) by (bit_vector)
            requires
                bit == (n >> shift) & 1,
        ;
        cells.push(Pixel::from_u8(bit).unwrap());
        i = i + 1;
    }
    assert(cells@ =~= unpack_byte(n));
    cells
}

/// Unpacks one wire byte into its eight cells, most significant bit first.
/// The two uniform bytes take a short cut; the result is the same as that of
/// unpacking them bit by bit.
pub fn to_binary(n: u8) -> (r: Vec<Pixel>)
    ensures
        r@ == unpack_byte(n),
{
    if n == 0 {
        proof {
            lemma_uniform_bytes();
        }
        let cells = vec![Pixel::Filled; 8];
        assert(cells@ =~= unpack_byte(0));
        cells
    } else if n == 255 {
        proof {
            lemma_uniform_bytes();
        }
        let cells = vec![Pixel::Empty; 8];
        assert(cells@ =~= unpack_byte(255));
        cells
    } else {
        to_binary_bitwise(n)
    }
}

/// The byte with no bit set unpacks to eight filled cells and the byte with
/// every bit set to eight empty ones: the short cut of `to_binary` agrees with
/// unpacking bit by bit.
pub proof fn lemma_uniform_bytes()
    ensures
        unpack_byte(0) == Seq::new(8, |i: int| Pixel::Filled),
        unpack_byte(255) == Seq::new(8, |i: int| Pixel::Empty),
{
    assert forall|i: int| 0 <= i < 8 implies bit_pixel(0, i) == Pixel::Filled by {
        let s = (7 - i) as u8;
        assert((0u8 >> s) & 1 == 0) by (bit_vector)
            requires
                s < 8,
        ;
    }
    assert forall|i: int| 0 <= i < 8 implies bit_pixel(255, i) == Pixel::Empty by {
        let s = (7 - i) as u8;
        assert((255u8 >> s) & 1 == 1) by (bit_vector)
            requires
                s < 8,
        ;
    }
    assert(unpack_byte(0) =~= Seq::new(8, |i: int| Pixel::Filled));
    assert(unpack_byte(255) =~= Seq::new(8, |i: int| Pixel::Empty));
}

/// A buffer of bytes with no bit set holds filled cells only, and a buffer of
/// bytes with every bit set holds empty cells only.
pub proof fn lemma_uniform_buffer(data: Seq<u8>, k: int)
    requires
        0 <= k < 8 * data.len(),
    ensures
        (forall|i: int| 0 <= i < data.len() ==> data[i] == 0) ==> pixel_at(data, k)
            == Pixel::Filled,
        (forall|i: int| 0 <= i < data.len() ==> data[i] == 255) ==> pixel_at(data, k)
            == Pixel::Empty,
{
    lemma_uniform_bytes();
    assert(unpack_byte(0)[k % 8] == bit_pixel(0, k % 8));
    assert(unpack_byte(255)[k % 8] == bit_pixel(255, k % 8));
}

/// Unpacks a whole bit-packed buffer: the cells of its bytes, one byte after
/// the other.
pub fn unpack_all(data: &Vec<u8>) -> (r: Vec<Pixel>)
    ensures
        r@ == unpack(data@),
{
    let mut cells: Vec<Pixel> = Vec::new();
    let mut i: usize = 0;
    while i < data.len()
        invariant
            i <= data@.len(),
            cells@.len() == 8 * i,
            forall|k: int| 0 <= k < 8 * i ==> cells@[k] == pixel_at(data@, k),
        decreases data@.len() - i,
    {
        let mut bits = to_binary(data[i]);
        cells.append(&mut bits);
        i = i + 1;
    }
    assert(cells@ =~= unpack(data@));
    cells
}

/// Whether every byte of a buffer is the code of a visibility state.
pub open spec fn all_visibility_codes(data: Seq<u8>) -> bool {
    forall|i: int| 0 <= i < data.len() ==> #[trigger] data[i] <= 3
}

/// Whether `data[i]` is the first byte of the buffer that is not the code of
/// a visibility state.
pub open spec fn is_first_bad_code(data: Seq<u8>, i: int) -> bool {
    &&& 0 <= i < data.len()
    &&& data[i] > 3
    &&& forall|j: int| 0 <= j < i ==> #[trigger] data[j] <= 3
}

/// Decodes a buffer of visibility codes, cell by cell. It fails on the first
/// byte that is no such code, and reports that byte.
pub fn decode_visibility(data: &Vec<u8>) -> (r: Result<Vec<Visibility>, DecodeError>)
    ensures
        r is Ok <==> all_visibility_codes(data@),
        r matches Ok(cells) ==> cells@.len() == data@.len() && forall|i: int|
            0 <= i < data@.len() ==> #[trigger] cells@[i].code() == data@[i],
        r matches Err(e) ==> exists|i: int|
            is_first_bad_code(data@, i) && e == DecodeError::Visibility(data@[i]),
{
    let mut cells: Vec<Visibility> = Vec::new();
    let mut i: usize = 0;
    while i < data.len()
        invariant
            i <= data@.len(),
            cells@.len() == i,
            forall|k: int| 0 <= k < i ==> #[trigger] data@[k] <= 3,
            forall|k: int| 0 <= k < i ==> #[trigger] cells@[k].code() == data@[k],
        decreases data@.len() - i,
    {
        match Visibility::from_u8(data[i]) {
            Some(v) => cells.push(v),
            None => {
                assert(is_first_bad_code(data@, i as int));
                return Err(DecodeError::Visibility(data[i]));
            },
        }
        i = i + 1;
    }
    Ok(cells)
}

/// Whether an array of `rows` by `cols` elements can be addressed: the
/// product of the axis lengths that are not zero must not exceed `isize::MAX`.
pub open spec fn fits_address_space(rows: int, cols: int) -> bool {
    (if rows == 0 { 1 } else { rows }) * (if cols == 0 { 1 } else { cols }) <= isize::MAX
}

/// Whether a buffer of `cells` cells is an image of the declared size: no
/// dimension is negative, the count is height times width, and a grid of that
/// size can be addressed.
pub open spec fn shape_matches(size: Size2DI, cells: nat) -> bool {
    &&& 0 <= size.x
    &&& 0 <= size.y
    &&& cells == size.y * size.x
    &&& fits_address_space(size.y as int, size.x as int)
}

/// Cell `(x, y)` of a grid `width` wide and `height` high stands at
/// `y * width + x` in the buffer, which is below `height * width`.
pub proof fn lemma_cell_index(x: int, y: int, width: int, height: int)
    requires
        0 <= x < width,
        0 <= y < height,
    ensures
        0 <= y * width + x < height * width,
{
    assert(y * width + x < height * width) by (nonlinear_arith)
        requires
            0 <= x < width,
            0 <= y < height,
    {
        assert((y + 1) * width <= height * width);
    }
    assert(0 <= y * width) by (nonlinear_arith)
        requires
            0 <= y,
            0 < width,
    ;
}

/// `ndarray::ShapeError`, the error that `from_shape_vec` returns. Nothing is
/// claimed of what it holds.
#[verifier::external_type_specification]
#[verifier::external_body]
pub struct ExShapeError(ndarray::ShapeError);

/// A grid of binary cells, held in an `ndarray::Array2` whose first axis is the
/// column `x` and whose second axis is the row `y`.
#[verifier::external_body]
#[derive(Debug)]
pub struct PixelMap {
    cells: ndarray::Array2<Pixel>,
}

/// The lengths of the two axes of the array inside a `PixelMap`.
pub uninterp spec fn pixel_map_dim(m: PixelMap) -> (nat, nat);

/// The elements of the array inside a `PixelMap`, each under its pair of indices.
pub uninterp spec fn pixel_map_cells(m: PixelMap) -> Map<(int, int), Pixel>;

/// `ndarray::Array2::from_shape_vec` with the shape `(rows, cols)`. The call
/// succeeds exactly when the vector holds `rows * cols` elements and the
/// product of the axis lengths that are not zero does not exceed
/// `isize::MAX`; the array then has that shape and holds the vector row by
/// row.
#[verifier::external_body]
fn pixels_from_shape_vec(rows: usize, cols: usize, cells: Vec<Pixel>) -> (r: Result<PixelMap, ndarray::ShapeError>)
    ensures
        r is Ok <==> (cells@.len() == rows * cols && fits_address_space(rows as int, cols as int)),
        r matches Ok(m) ==> pixel_map_dim(m) == (rows as nat, cols as nat) && forall|i: int, j: int|
            0 <= i < rows && 0 <= j < cols ==> #[trigger] pixel_map_cells(m)[(i, j)] == cells@[i * cols + j],
{
    match ndarray::Array2::from_shape_vec((rows, cols), cells) {
        Ok(cells) => Ok(PixelMap { cells }),
        Err(e) => Err(e),
    }
}

/// `ndarray::ArrayBase::reversed_axes`: the transposed array. Its axes are
/// those of the argument in reverse order and its element at `(i, j)` is the
/// argument's element at `(j, i)`.
#[verifier::external_body]
fn pixels_reversed_axes(m: PixelMap) -> (r: PixelMap)
    ensures
        pixel_map_dim(r) == (pixel_map_dim(m).1, pixel_map_dim(m).0),
        forall|i: int, j: int|
            0 <= i < pixel_map_dim(r).0 && 0 <= j < pixel_map_dim(r).1 ==> #[trigger] pixel_map_cells(r)[(i, j)]
                == pixel_map_cells(m)[(j, i)],
{
    PixelMap { cells: m.cells.reversed_axes() }
}

/// `ndarray::ArrayBase::dim`: the lengths of the two axes.
#[verifier::external_body]
fn pixels_dim(m: &PixelMap) -> (r: (usize, usize))
    ensures
        r.0 == pixel_map_dim(*m).0,
        r.1 == pixel_map_dim(*m).1,
{
    m.cells.dim()
}

/// `ndarray::ArrayBase::get` with a pair of indices: the element there, or
/// `None` where an index is not below the length of its axis.
#[verifier::external_body]
fn pixels_get(m: &PixelMap, x: usize, y: usize) -> (r: Option<Pixel>)
    ensures
        r == (if x < pixel_map_dim(*m).0 && y < pixel_map_dim(*m).1 {
            Some(pixel_map_cells(*m)[(x as int, y as int)])
        } else {
            None
        }),
{
    m.cells.get((x, y)).copied()
}

/// `ndarray::ArrayBase::index_mut` with a pair of indices, followed by the
/// assignment: the element there becomes `value`, every other element and the
/// shape stay. The indices must be in range, else the call panics.
#[verifier::external_body]
fn pixels_put(m: &mut PixelMap, x: usize, y: usize, value: Pixel)
    requires
        x < pixel_map_dim(*old(m)).0,
        y < pixel_map_dim(*old(m)).1,
    ensures
        pixel_map_dim(*final(m)) == pixel_map_dim(*old(m)),
        forall|i: int, j: int|
            0 <= i < pixel_map_dim(*old(m)).0 && 0 <= j < pixel_map_dim(*old(m)).1 ==> #[trigger] pixel_map_cells(*final(m))[(i, j)]
                == (if i == x && j == y {
                value
            } else {
                pixel_map_cells(*old(m))[(i, j)]
            }),
{
    m.cells[(x, y)] = value;
}

impl PixelMap {
    /// The width and the height of the grid, in cells.
    pub open spec fn dims(&self) -> (nat, nat) {
        pixel_map_dim(*self)
    }

    /// The cell in column `x` and row `y`.
    pub open spec fn at(&self, x: int, y: int) -> Pixel {
        pixel_map_cells(*self)[(x, y)]
    }

    /// Decodes a bit-packed image, eight cells to the byte, most significant
    /// bit first. The image is rejected unless its buffer holds exactly as
    /// many cells as its header declares.
    pub fn from_proto(grid: ImageData) -> (r: Result<PixelMap, DecodeError>)
        ensures
            r is Ok <==> shape_matches(grid.size, 8 * grid.data@.len()),
            r matches Ok(m) ==> m.dims() == (grid.size.x as nat, grid.size.y as nat) && forall|
                x: int,
                y: int,
            |
                0 <= x < grid.size.x && 0 <= y < grid.size.y ==> #[trigger] m.at(x, y) == pixel_at(
                    grid.data@,
                    y * grid.size.x + x,
                ),
            r matches Err(e) ==> e == DecodeError::Shape,
    {
        let size = grid.size;
        if size.x < 0 || size.y < 0 {
            return Err(DecodeError::Shape);
        }
        let cells = unpack_all(&grid.data);
        match pixels_from_shape_vec(size.y as usize, size.x as usize, cells) {
            Ok(rows) => {
                let m = pixels_reversed_axes(rows);
                assert forall|x: int, y: int| 0 <= x < size.x && 0 <= y < size.y implies m.at(x, y)
                    == pixel_at(grid.data@, y * size.x + x) by {
                    lemma_cell_index(x, y, size.x as int, size.y as int);
                }
                Ok(m)
            },
            Err(_) => Err(DecodeError::Shape),
        }
    }

    /// The width and the height of the grid, in cells.
    pub fn dim(&self) -> (r: (usize, usize))
        ensures
            r.0 == self.dims().0,
            r.1 == self.dims().1,
    {
        pixels_dim(self)
    }

    /// Reads the cell in column `x` and row `y`; `None` outside the grid.
    pub fn get(&self, x: usize, y: usize) -> (r: Option<Pixel>)
        ensures
            r == (if x < self.dims().0 && y < self.dims().1 {
                Some(self.at(x as int, y as int))
            } else {
                None
            }),
    {
        pixels_get(self, x, y)
    }

    /// Writes the cell in column `x` and row `y` and says whether there is
    /// such a cell. No other cell changes, and outside the grid none does.
    pub fn set(&mut self, x: usize, y: usize, value: Pixel) -> (done: bool)
        ensures
            done <==> x < old(self).dims().0 && y < old(self).dims().1,
            final(self).dims() == old(self).dims(),
            forall|i: int, j: int|
                0 <= i < old(self).dims().0 && 0 <= j < old(self).dims().1 ==> #[trigger] final(self).at(i, j)
                    == (if i == x && j == y {
                    value
                } else {
                    old(self).at(i, j)
                }),
    {
        let (width, height) = pixels_dim(self);
        if x < width && y < height {
            pixels_put(self, x, y, value);
            true
        } else {
            false
        }
    }
}

/// A grid of bytes, such as terrain heights, held in an `ndarray::Array2` whose first axis is the
/// column `x` and whose second axis is the row `y`.
#[verifier::external_body]
#[derive(Debug)]
pub struct ByteMap {
    cells: ndarray::Array2<u8>,
}

/// The lengths of the two axes of the array inside a `ByteMap`.
pub uninterp spec fn byte_map_dim(m: ByteMap) -> (nat, nat);

/// The elements of the array inside a `ByteMap`, each under its pair of indices.
pub uninterp spec fn byte_map_cells(m: ByteMap) -> Map<(int, int), u8>;

/// `ndarray::Array2::from_shape_vec` with the shape `(rows, cols)`. The call
/// succeeds exactly when the vector holds `rows * cols` elements and the
/// product of the axis lengths that are not zero does not exceed
/// `isize::MAX`; the array then has that shape and holds the vector row by
/// row.
#[verifier::external_body]
fn bytes_from_shape_vec(rows: usize, cols: usize, cells: Vec<u8>) -> (r: Result<ByteMap, ndarray::ShapeError>)
    ensures
        r is Ok <==> (cells@.len() == rows * cols && fits_address_space(rows as int, cols as int)),
        r matches Ok(m) ==> byte_map_dim(m) == (rows as nat, cols as nat) && forall|i: int, j: int|
            0 <= i < rows && 0 <= j < cols ==> #[trigger] byte_map_cells(m)[(i, j)] == cells@[i * cols + j],
{
    match ndarray::Array2::from_shape_vec((rows, cols), cells) {
        Ok(cells) => Ok(ByteMap { cells }),
        Err(e) => Err(e),
    }
}

/// `ndarray::ArrayBase::reversed_axes`: the transposed array. Its axes are
/// those of the argument in reverse order and its element at `(i, j)` is the
/// argument's element at `(j, i)`.
#[verifier::external_body]
fn bytes_reversed_axes(m: ByteMap) -> (r: ByteMap)
    ensures
        byte_map_dim(r) == (byte_map_dim(m).1, byte_map_dim(m).0),
        forall|i: int, j: int|
            0 <= i < byte_map_dim(r).0 && 0 <= j < byte_map_dim(r).1 ==> #[trigger] byte_map_cells(r)[(i, j)]
                == byte_map_cells(m)[(j, i)],
{
    ByteMap { cells: m.cells.reversed_axes() }
}

/// `ndarray::ArrayBase::dim`: the lengths of the two axes.
#[verifier::external_body]
fn bytes_dim(m: &ByteMap) -> (r: (usize, usize))
    ensures
        r.0 == byte_map_dim(*m).0,
        r.1 == byte_map_dim(*m).1,
{
    m.cells.dim()
}

/// `ndarray::ArrayBase::get` with a pair of indices: the element there, or
/// `None` where an index is not below the length of its axis.
#[verifier::external_body]
fn bytes_get(m: &ByteMap, x: usize, y: usize) -> (r: Option<u8>)
    ensures
        r == (if x < byte_map_dim(*m).0 && y < byte_map_dim(*m).1 {
            Some(byte_map_cells(*m)[(x as int, y as int)])
        } else {
            None
        }),
{
    m.cells.get((x, y)).copied()
}

/// `ndarray::ArrayBase::index_mut` with a pair of indices, followed by the
/// assignment: the element there becomes `value`, every other element and the
/// shape stay. The indices must be in range, else the call panics.
#[verifier::external_body]
fn bytes_put(m: &mut ByteMap, x: usize, y: usize, value: u8)
    requires
        x < byte_map_dim(*old(m)).0,
        y < byte_map_dim(*old(m)).1,
    ensures
        byte_map_dim(*final(m)) == byte_map_dim(*old(m)),
        forall|i: int, j: int|
            0 <= i < byte_map_dim(*old(m)).0 && 0 <= j < byte_map_dim(*old(m)).1 ==> #[trigger] byte_map_cells(*final(m))[(i, j)]
                == (if i == x && j == y {
                value
            } else {
                byte_map_cells(*old(m))[(i, j)]
            }),
{
    m.cells[(x, y)] = value;
}

impl ByteMap {
    /// The width and the height of the grid, in cells.
    pub open spec fn dims(&self) -> (nat, nat) {
        byte_map_dim(*self)
    }

    /// The cell in column `x` and row `y`.
    pub open spec fn at(&self, x: int, y: int) -> u8 {
        byte_map_cells(*self)[(x, y)]
    }

    /// Decodes an image of one byte to the cell; each byte is the cell. The
    /// image is rejected unless its buffer holds exactly as many cells as its
    /// header declares.
    pub fn from_proto(grid: ImageData) -> (r: Result<ByteMap, DecodeError>)
        ensures
            r is Ok <==> shape_matches(grid.size, grid.data@.len()),
            r matches Ok(m) ==> m.dims() == (grid.size.x as nat, grid.size.y as nat) && forall|
                x: int,
                y: int,
            |
                0 <= x < grid.size.x && 0 <= y < grid.size.y ==> #[trigger] m.at(x, y)
                    == grid.data@[y * grid.size.x + x],
            r matches Err(e) ==> e == DecodeError::Shape,
    {
        let size = grid.size;
        if size.x < 0 || size.y < 0 {
            return Err(DecodeError::Shape);
        }
        match bytes_from_shape_vec(size.y as usize, size.x as usize, grid.data) {
            Ok(rows) => Ok(bytes_reversed_axes(rows)),
            Err(_) => Err(DecodeError::Shape),
        }
    }

    /// The width and the height of the grid, in cells.
    pub fn dim(&self) -> (r: (usize, usize))
        ensures
            r.0 == self.dims().0,
            r.1 == self.dims().1,
    {
        bytes_dim(self)
    }

    /// Reads the cell in column `x` and row `y`; `None` outside the grid.
    pub fn get(&self, x: usize, y: usize) -> (r: Option<u8>)
        ensures
            r == (if x < self.dims().0 && y < self.dims().1 {
                Some(self.at(x as int, y as int))
            } else {
                None
            }),
    {
        bytes_get(self, x, y)
    }

    /// Writes the cell in column `x` and row `y` and says whether there is
    /// such a cell. No other cell changes, and outside the grid none does.
    pub fn set(&mut self, x: usize, y: usize, value: u8) -> (done: bool)
        ensures
            done <==> x < old(self).dims().0 && y < old(self).dims().1,
            final(self).dims() == old(self).dims(),
            forall|i: int, j: int|
                0 <= i < old(self).dims().0 && 0 <= j < old(self).dims().1 ==> #[trigger] final(self).at(i, j)
                    == (if i == x && j == y {
                    value
                } else {
                    old(self).at(i, j)
                }),
    {
        let (width, height) = bytes_dim(self);
        if x < width && y < height {
            bytes_put(self, x, y, value);
            true
        } else {
            false
        }
    }
}

/// A grid of visibility states, held in an `ndarray::Array2` whose first axis is the
/// column `x` and whose second axis is the row `y`.
#[verifier::external_body]
#[derive(Debug)]
pub struct VisibilityMap {
    cells: ndarray::Array2<Visibility>,
}

/// The lengths of the two axes of the array inside a `VisibilityMap`.
pub uninterp spec fn visibility_map_dim(m: VisibilityMap) -> (nat, nat);

/// The elements of the array inside a `VisibilityMap`, each under its pair of indices.
pub uninterp spec fn visibility_map_cells(m: VisibilityMap) -> Map<(int, int), Visibility>;

/// `ndarray::Array2::from_shape_vec` with the shape `(rows, cols)`. The call
/// succeeds exactly when the vector holds `rows * cols` elements and the
/// product of the axis lengths that are not zero does not exceed
/// `isize::MAX`; the array then has that shape and holds the vector row by
/// row.
#[verifier::external_body]
fn visibility_from_shape_vec(rows: usize, cols: usize, cells: Vec<Visibility>) -> (r: Result<VisibilityMap, ndarray::ShapeError>)
    ensures
        r is Ok <==> (cells@.len() == rows * cols && fits_address_space(rows as int, cols as int)),
        r matches Ok(m) ==> visibility_map_dim(m) == (rows as nat, cols as nat) && forall|i: int, j: int|
            0 <= i < rows && 0 <= j < cols ==> #[trigger] visibility_map_cells(m)[(i, j)] == cells@[i * cols + j],
{
    match ndarray::Array2::from_shape_vec((rows, cols), cells) {
        Ok(cells) => Ok(VisibilityMap { cells }),
        Err(e) => Err(e),
    }
}

/// `ndarray::ArrayBase::reversed_axes`: the transposed array. Its axes are
/// those of the argument in reverse order and its element at `(i, j)` is the
/// argument's element at `(j, i)`.
#[verifier::external_body]
fn visibility_reversed_axes(m: VisibilityMap) -> (r: VisibilityMap)
    ensures
        visibility_map_dim(r) == (visibility_map_dim(m).1, visibility_map_dim(m).0),
        forall|i: int, j: int|
            0 <= i < visibility_map_dim(r).0 && 0 <= j < visibility_map_dim(r).1 ==> #[trigger] visibility_map_cells(r)[(i, j)]
                == visibility_map_cells(m)[(j, i)],
{
    VisibilityMap { cells: m.cells.reversed_axes() }
}

/// `ndarray::ArrayBase::dim`: the lengths of the two axes.
#[verifier::external_body]
fn visibility_dim(m: &VisibilityMap) -> (r: (usize, usize))
    ensures
        r.0 == visibility_map_dim(*m).0,
        r.1 == visibility_map_dim(*m).1,
{
    m.cells.dim()
}

/// `ndarray::ArrayBase::get` with a pair of indices: the element there, or
/// `None` where an index is not below the length of its axis.
#[verifier::external_body]
fn visibility_get(m: &VisibilityMap, x: usize, y: usize) -> (r: Option<Visibility>)
    ensures
        r == (if x < visibility_map_dim(*m).0 && y < visibility_map_dim(*m).1 {
            Some(visibility_map_cells(*m)[(x as int, y as int)])
        } else {
            None
        }),
{
    m.cells.get((x, y)).copied()
}

/// `ndarray::ArrayBase::index_mut` with a pair of indices, followed by the
/// assignment: the element there becomes `value`, every other element and the
/// shape stay. The indices must be in range, else the call panics.
#[verifier::external_body]
fn visibility_put(m: &mut VisibilityMap, x: usize, y: usize, value: Visibility)
    requires
        x < visibility_map_dim(*old(m)).0,
        y < visibility_map_dim(*old(m)).1,
    ensures
        visibility_map_dim(*final(m)) == visibility_map_dim(*old(m)),
        forall|i: int, j: int|
            0 <= i < visibility_map_dim(*old(m)).0 && 0 <= j < visibility_map_dim(*old(m)).1 ==> #[trigger] visibility_map_cells(*final(m))[(i, j)]
                == (if i == x && j == y {
                value
            } else {
                visibility_map_cells(*old(m))[(i, j)]
            }),
{
    m.cells[(x, y)] = value;
}

impl VisibilityMap {
    /// The width and the height of the grid, in cells.
    pub open spec fn dims(&self) -> (nat, nat) {
        visibility_map_dim(*self)
    }

    /// The cell in column `x` and row `y`.
    pub open spec fn at(&self, x: int, y: int) -> Visibility {
        visibility_map_cells(*self)[(x, y)]
    }

    /// Decodes an image of one byte to the cell, each byte the code of a
    /// visibility state. A byte that is no such code rejects the image, and
    /// the first such byte is reported; after that the image is rejected
    /// unless its buffer holds exactly as many cells as its header declares.
    pub fn from_proto(grid: ImageData) -> (r: Result<VisibilityMap, DecodeError>)
        ensures
            r is Ok <==> all_visibility_codes(grid.data@) && shape_matches(
                grid.size,
                grid.data@.len(),
            ),
            r matches Ok(m) ==> m.dims() == (grid.size.x as nat, grid.size.y as nat) && forall|
                x: int,
                y: int,
            |
                0 <= x < grid.size.x && 0 <= y < grid.size.y ==> #[trigger] m.at(x, y).code()
                    == grid.data@[y * grid.size.x + x],
            r == Err::<VisibilityMap, DecodeError>(DecodeError::Shape) <==> all_visibility_codes(
                grid.data@,
            ) && !shape_matches(grid.size, grid.data@.len()),
            r matches Err(DecodeError::Visibility(b)) ==> exists|i: int|
                0 <= i < grid.data@.len() && is_first_bad_code(grid.data@, i) && b == grid.data@[i],
    {
        let size = grid.size;
        let cells = match decode_visibility(&grid.data) {
            Ok(cells) => cells,
            Err(e) => {
                return Err(e);
            },
        };
        if size.x < 0 || size.y < 0 {
            return Err(DecodeError::Shape);
        }
        let ghost codes = cells@;
        match visibility_from_shape_vec(size.y as usize, size.x as usize, cells) {
            Ok(rows) => {
                let m = visibility_reversed_axes(rows);
                assert forall|x: int, y: int|
                    0 <= x < size.x && 0 <= y < size.y implies m.at(x, y).code()
                    == grid.data@[y * size.x + x] by {
                    lemma_cell_index(x, y, size.x as int, size.y as int);
                    assert(m.at(x, y) == codes[y * size.x + x]);
                }
                Ok(m)
            },
            Err(_) => Err(DecodeError::Shape),
        }
    }

    /// The width and the height of the grid, in cells.
    pub fn dim(&self) -> (r: (usize, usize))
        ensures
            r.0 == self.dims().0,
            r.1 == self.dims().1,
    {
        visibility_dim(self)
    }

    /// Reads the cell in column `x` and row `y`; `None` outside the grid.
    pub fn get(&self, x: usize, y: usize) -> (r: Option<Visibility>)
        ensures
            r == (if x < self.dims().0 && y < self.dims().1 {
                Some(self.at(x as int, y as int))
            } else {
                None
            }),
    {
        visibility_get(self, x, y)
    }

    /// Writes the cell in column `x` and row `y` and says whether there is
    /// such a cell. No other cell changes, and outside the grid none does.
    pub fn set(&mut self, x: usize, y: usize, value: Visibility) -> (done: bool)
        ensures
            done <==> x < old(self).dims().0 && y < old(self).dims().1,
            final(self).dims() == old(self).dims(),
            forall|i: int, j: int|
                0 <= i < old(self).dims().0 && 0 <= j < old(self).dims().1 ==> #[trigger] final(self).at(i, j)
                    == (if i == x && j == y {
                    value
                } else {
                    old(self).at(i, j)
                }),
    {
        let (width, height) = visibility_dim(self);
        if x < width && y < height {
            visibility_put(self, x, y, value);
            true
        } else {
            false
        }
    }
}

} // verus!
