//! Square matrices of order two, three and four, stored row by row.
//!
//! The cell type is left open. Everything here moves cells around without
//! computing on them (construction, addressing, transposition, the minors
//! that a cofactor expansion needs, translation and scale layouts), so each
//! contract holds for every copyable scalar. Arithmetic on the cells belongs
//! to the caller, who knows the scalar.
//!
//! The model of a matrix is its view: a sequence of rows, each a sequence of
//! cells.

use crate::error::MathError;
use crate::physics::vector::{Vector2, Vector3};
use vstd::prelude::*;

verus! {

/// `cells` has `size` rows of `size` cells each.
pub open spec fn is_square<T>(cells: Seq<Seq<T>>, size: nat) -> bool {
    &&& cells.len() == size
    &&& forall|r: int| 0 <= r < size ==> (#[trigger] cells[r]).len() == size
}

/// The grid of order `size` with `on` along the main diagonal and `off`
/// everywhere else.
pub open spec fn diagonal_cells<T>(size: nat, on: T, off: T) -> Seq<Seq<T>> {
    Seq::new(
        size,
        |r: int|
            Seq::new(
                size,
                |c: int|
                    if r == c {
                        on
                    } else {
                        off
                    },
            ),
    )
}

/// `cells` with rows and columns swapped.
pub open spec fn transposed<T>(cells: Seq<Seq<T>>) -> Seq<Seq<T>> {
    Seq::new(cells.len(), |r: int| Seq::new(cells.len(), |c: int| cells[c][r]))
}

/// `cells` with the cell at (`row`, `col`) replaced by `value`.
pub open spec fn with_cell<T>(cells: Seq<Seq<T>>, row: int, col: int, value: T) -> Seq<Seq<T>> {
    cells.update(row, cells[row].update(col, value))
}

/// `cells` without row `row` and without column `col`: the grid whose
/// determinant is the minor of the cell at (`row`, `col`).
pub open spec fn minor_of<T>(cells: Seq<Seq<T>>, row: int, col: int) -> Seq<Seq<T>> {
    cells.remove(row).map_values(|line: Seq<T>| line.remove(col))
}

/// What the three matrix types have in common.
pub trait Matrix<T: Copy>: Sized + View<V = Seq<Seq<T>>> {
    /// The number of rows, which is the number of columns.
    spec fn order() -> nat;

    /// Every matrix is square, of its type's order.
    proof fn lemma_square(&self)
        ensures
            is_square(self@, Self::order()),
    ;

    /// Two matrices with the same cells are the same matrix.
    proof fn lemma_view_determines(a: Self, b: Self)
        requires
            a@ == b@,
        ensures
            a == b,
    ;

    /// The matrix with `one` along the main diagonal and `zero` elsewhere.
    fn identity(zero: T, one: T) -> (m: Self)
        ensures
            m@ == diagonal_cells(Self::order(), one, zero),
    ;

    /// The matrix that holds `zero` in every cell.
    fn zero(zero: T) -> (m: Self)
        ensures
            m@ == diagonal_cells(Self::order(), zero, zero),
    ;

    /// Stores `value` at (`row`, `col`). An address outside the matrix is
    /// reported and leaves the matrix as it was.
    fn set_value(&mut self, row: usize, col: usize, value: T) -> (done: Result<(), MathError>)
        ensures
            row < Self::order() && col < Self::order() ==> done == Ok::<(), MathError>(())
                && final(self)@ == with_cell(old(self)@, row as int, col as int, value),
            !(row < Self::order() && col < Self::order()) ==> done == Err::<(), MathError>(
                MathError::IndexOutOfRange { row, col, size: Self::order() as usize },
            ) && final(self)@ == old(self)@,
    ;

    /// The cell at (`row`, `col`), or a report that the address is outside
    /// the matrix.
    fn get_value(&self, row: usize, col: usize) -> (value: Result<T, MathError>)
        ensures
            row < Self::order() && col < Self::order() ==> value == Ok::<T, MathError>(
                self@[row as int][col as int],
            ),
            !(row < Self::order() && col < Self::order()) ==> value == Err::<T, MathError>(
                MathError::IndexOutOfRange { row, col, size: Self::order() as usize },
            ),
    ;

    /// A new matrix with rows and columns swapped.
    fn transpose(&self) -> (t: Self)
        ensures
            t@ == transposed(self@),
    ;

    fn get_size(&self) -> (size: usize)
        ensures
            size == Self::order(),
    ;
}

/// Transposing a square grid twice gives the grid back.
pub proof fn lemma_transposed_twice<T>(cells: Seq<Seq<T>>, size: nat)
    requires
        is_square(cells, size),
    ensures
        transposed(transposed(cells)) == cells,
{
    let twice = transposed(transposed(cells));
    assert forall|r: int| 0 <= r < size implies #[trigger] twice[r] == cells[r] by {
        assert(twice[r] =~= cells[r]);
    }
    assert(twice =~= cells);
}

/// Transposing a matrix and then transposing the result gives the matrix
/// back, cell for cell: `twice` is `m`.
pub proof fn lemma_transpose_involution<T: Copy, M: Matrix<T>>(m: M, once: M, twice: M)
    requires
        once@ == transposed(m@),
        twice@ == transposed(once@),
    ensures
        twice == m,
{
    m.lemma_square();
    lemma_transposed_twice(m@, M::order());
    M::lemma_view_determines(twice, m);
}

/// A 2×2 matrix.
pub struct Matrix2<T> {
    data: [[T; 2]; 2],
}

impl<T> Matrix2<T> {
    /// The cell at (`row`, `col`), for addresses inside the matrix.
    pub closed spec fn cell(&self, row: int, col: int) -> T {
        self.data[row][col]
    }
}

impl<T> View for Matrix2<T> {
    type V = Seq<Seq<T>>;

    open spec fn view(&self) -> Seq<Seq<T>> {
        Seq::new(2, |r: int| Seq::new(2, |c: int| self.cell(r, c)))
    }
}

impl<T: Copy> Matrix2<T> {
    /// The matrix whose rows are `rows`.
    pub fn from_rows(rows: [[T; 2]; 2]) -> (m: Self)
        ensures
            m@ == Seq::new(2, |r: int| rows[r]@),
    {
        let m = Matrix2 { data: rows };
        assert(m@ =~~= Seq::new(2, |r: int| rows[r]@));
        m
    }

    /// The rows of the matrix.
    pub fn get_data(&self) -> (rows: &[[T; 2]; 2])
        ensures
            self@ == Seq::new(2, |r: int| rows[r]@),
    {
        assert(self@ =~~= Seq::new(2, |r: int| self.data[r]@));
        &self.data
    }
}

impl<T: Copy> Matrix<T> for Matrix2<T> {
    open spec fn order() -> nat {
        2
    }

    proof fn lemma_square(&self) {
    }

    proof fn lemma_view_determines(a: Self, b: Self) {
        assert forall|r: int| 0 <= r < 2 implies a.data[r] == b.data[r] by {
            assert forall|c: int| 0 <= c < 2 implies a.data[r][c] == b.data[r][c] by {
                assert(a@[r][c] == a.cell(r, c));
                assert(b@[r][c] == b.cell(r, c));
            }
            assert(a.data[r] =~= b.data[r]);
        }
        assert(a.data =~= b.data);
    }

    fn identity(zero: T, one: T) -> (m: Self) {
        let m = Matrix2 { data: [[one, zero], [zero, one]] };
        assert(m@ =~~= diagonal_cells(2, one, zero));
        m
    }

    fn zero(zero: T) -> (m: Self) {
        let m = Matrix2 { data: [[zero, zero], [zero, zero]] };
        assert(m@ =~~= diagonal_cells(2, zero, zero));
        m
    }

    fn set_value(&mut self, row: usize, col: usize, value: T) -> (done: Result<(), MathError>) {
        if row < 2 && col < 2 {
            self.data[row][col] = value;
            assert(self@ =~~= with_cell(old(self)@, row as int, col as int, value));
            Ok(())
        } else {
            Err(MathError::IndexOutOfRange { row, col, size: 2 })
        }
    }

    fn get_value(&self, row: usize, col: usize) -> (value: Result<T, MathError>) {
        if row < 2 && col < 2 {
            Ok(self.data[row][col])
        } else {
            Err(MathError::IndexOutOfRange { row, col, size: 2 })
        }
    }

    fn transpose(&self) -> (t: Self) {
        let d = &self.data;
        let t = Matrix2 { data: [[d[0][0], d[1][0]], [d[0][1], d[1][1]]] };
        assert(t@ =~~= transposed(self@));
        t
    }

    fn get_size(&self) -> (size: usize) {
        2
    }
}

/// A 3×3 matrix, the shape of a 2D affine transform.
pub struct Matrix3<T> {
    data: [[T; 3]; 3],
}

impl<T> Matrix3<T> {
    /// The cell at (`row`, `col`), for addresses inside the matrix.
    pub closed spec fn cell(&self, row: int, col: int) -> T {
        self.data[row][col]
    }
}

impl<T> View for Matrix3<T> {
    type V = Seq<Seq<T>>;

    open spec fn view(&self) -> Seq<Seq<T>> {
        Seq::new(3, |r: int| Seq::new(3, |c: int| self.cell(r, c)))
    }
}

impl<T: Copy> Matrix3<T> {
    /// The matrix whose rows are `rows`.
    pub fn from_rows(rows: [[T; 3]; 3]) -> (m: Self)
        ensures
            m@ == Seq::new(3, |r: int| rows[r]@),
    {
        let m = Matrix3 { data: rows };
        assert(m@ =~~= Seq::new(3, |r: int| rows[r]@));
        m
    }

    /// The rows of the matrix.
    pub fn get_data(&self) -> (rows: &[[T; 3]; 3])
        ensures
            self@ == Seq::new(3, |r: int| rows[r]@),
    {
        assert(self@ =~~= Seq::new(3, |r: int| self.data[r]@));
        &self.data
    }

    /// The matrix that moves a point by `vector`: the identity with the
    /// offset in the last column.
    pub fn translate_matrix(vector: &Vector2<T>, zero: T, one: T) -> (m: Self)
        ensures
            m@ == seq![
                seq![one, zero, vector@.0],
                seq![zero, one, vector@.1],
                seq![zero, zero, one],
            ],
    {
        let m = Matrix3 {
            data: [[one, zero, vector.get_x()], [zero, one, vector.get_y()], [zero, zero, one]],
        };
        assert(m@ =~~= seq![
            seq![one, zero, vector@.0],
            seq![zero, one, vector@.1],
            seq![zero, zero, one],
        ]);
        m
    }

    /// The matrix that scales each axis by the matching component of
    /// `vector`: the identity with the factors on the diagonal.
    pub fn scale_matrix(vector: &Vector2<T>, zero: T, one: T) -> (m: Self)
        ensures
            m@ == seq![
                seq![vector@.0, zero, zero],
                seq![zero, vector@.1, zero],
                seq![zero, zero, one],
            ],
    {
        let m = Matrix3 {
            data: [[vector.get_x(), zero, zero], [zero, vector.get_y(), zero], [zero, zero, one]],
        };
        assert(m@ =~~= seq![
            seq![vector@.0, zero, zero],
            seq![zero, vector@.1, zero],
            seq![zero, zero, one],
        ]);
        m
    }

    /// The 2×2 matrix left when row `row` and column `col` are struck out.
    pub fn minor(&self, row: usize, col: usize) -> (m: Result<Matrix2<T>, MathError>)
        ensures
            row < 3 && col < 3 ==> m is Ok && m->Ok_0@ == minor_of(self@, row as int, col as int),
            !(row < 3 && col < 3) ==> m == Err::<Matrix2<T>, MathError>(
                MathError::IndexOutOfRange { row, col, size: 3 },
            ),
    {
        if row < 3 && col < 3 {
            let d = &self.data;
            let r0: usize = if 0 < row { 0 } else { 1 };
            let r1: usize = if 1 < row { 1 } else { 2 };
            let c0: usize = if 0 < col { 0 } else { 1 };
            let c1: usize = if 1 < col { 1 } else { 2 };
            let m = Matrix2::from_rows([[d[r0][c0], d[r0][c1]], [d[r1][c0], d[r1][c1]]]);
            assert(m@ =~~= minor_of(self@, row as int, col as int));
            Ok(m)
        } else {
            Err(MathError::IndexOutOfRange { row, col, size: 3 })
        }
    }
}

impl<T: Copy> Matrix<T> for Matrix3<T> {
    open spec fn order() -> nat {
        3
    }

    proof fn lemma_square(&self) {
    }

    proof fn lemma_view_determines(a: Self, b: Self) {
        assert forall|r: int| 0 <= r < 3 implies a.data[r] == b.data[r] by {
            assert forall|c: int| 0 <= c < 3 implies a.data[r][c] == b.data[r][c] by {
                assert(a@[r][c] == a.cell(r, c));
                assert(b@[r][c] == b.cell(r, c));
            }
            assert(a.data[r] =~= b.data[r]);
        }
        assert(a.data =~= b.data);
    }

    fn identity(zero: T, one: T) -> (m: Self) {
        let m = Matrix3 { data: [[one, zero, zero], [zero, one, zero], [zero, zero, one]] };
        assert(m@ =~~= diagonal_cells(3, one, zero));
        m
    }

    fn zero(zero: T) -> (m: Self) {
        let m = Matrix3 { data: [[zero, zero, zero], [zero, zero, zero], [zero, zero, zero]] };
        assert(m@ =~~= diagonal_cells(3, zero, zero));
        m
    }

    fn set_value(&mut self, row: usize, col: usize, value: T) -> (done: Result<(), MathError>) {
        if row < 3 && col < 3 {
            self.data[row][col] = value;
            assert(self@ =~~= with_cell(old(self)@, row as int, col as int, value));
            Ok(())
        } else {
            Err(MathError::IndexOutOfRange { row, col, size: 3 })
        }
    }

    fn get_value(&self, row: usize, col: usize) -> (value: Result<T, MathError>) {
        if row < 3 && col < 3 {
            Ok(self.data[row][col])
        } else {
            Err(MathError::IndexOutOfRange { row, col, size: 3 })
        }
    }

    fn transpose(&self) -> (t: Self) {
        let d = &self.data;
        let t = Matrix3 {
            data: [
                [d[0][0], d[1][0], d[2][0]],
                [d[0][1], d[1][1], d[2][1]],
                [d[0][2], d[1][2], d[2][2]],
            ],
        };
        assert(t@ =~~= transposed(self@));
        t
    }

    fn get_size(&self) -> (size: usize) {
        3
    }
}

/// A 4×4 matrix, the shape of a 3D affine transform or a projection.
pub struct Matrix4<T> {
    data: [[T; 4]; 4],
}

impl<T> Matrix4<T> {
    /// The cell at (`row`, `col`), for addresses inside the matrix.
    pub closed spec fn cell(&self, row: int, col: int) -> T {
        self.data[row][col]
    }
}

impl<T> View for Matrix4<T> {
    type V = Seq<Seq<T>>;

    open spec fn view(&self) -> Seq<Seq<T>> {
        Seq::new(4, |r: int| Seq::new(4, |c: int| self.cell(r, c)))
    }
}

#[allow(non_snake_case)]
impl<T: Copy> Matrix4<T> {
    /// The matrix whose rows are `rows`.
    pub fn from_rows(rows: [[T; 4]; 4]) -> (m: Self)
        ensures
            m@ == Seq::new(4, |r: int| rows[r]@),
    {
        let m = Matrix4 { data: rows };
        assert(m@ =~~= Seq::new(4, |r: int| rows[r]@));
        m
    }

    /// Overwrites every cell with the matching cell of `matrix`.
    pub fn set(&mut self, matrix: &Matrix4<T>)
        ensures
            final(self)@ == matrix@,
    {
        self.data = matrix.data;
    }

    /// The rows of the matrix.
    pub fn getData(&self) -> (rows: &[[T; 4]; 4])
        ensures
            self@ == Seq::new(4, |r: int| rows[r]@),
    {
        assert(self@ =~~= Seq::new(4, |r: int| self.data[r]@));
        &self.data
    }

    /// The matrix that moves a point by `vector`: the identity with the
    /// offset in the last column.
    pub fn translate_matrix(vector: &Vector3<T>, zero: T, one: T) -> (m: Self)
        ensures
            m@ == seq![
                seq![one, zero, zero, vector@.0],
                seq![zero, one, zero, vector@.1],
                seq![zero, zero, one, vector@.2],
                seq![zero, zero, zero, one],
            ],
    {
        let m = Matrix4 {
            data: [
                [one, zero, zero, vector.get_x()],
                [zero, one, zero, vector.get_y()],
                [zero, zero, one, vector.get_z()],
                [zero, zero, zero, one],
            ],
        };
        assert(m@ =~~= seq![
            seq![one, zero, zero, vector@.0],
            seq![zero, one, zero, vector@.1],
            seq![zero, zero, one, vector@.2],
            seq![zero, zero, zero, one],
        ]);
        m
    }

    /// The matrix that scales each axis by the matching component of
    /// `vector`: the identity with the factors on the diagonal.
    pub fn ScaleMatrix(vector: &Vector3<T>, zero: T, one: T) -> (m: Self)
        ensures
            m@ == seq![
                seq![vector@.0, zero, zero, zero],
                seq![zero, vector@.1, zero, zero],
                seq![zero, zero, vector@.2, zero],
                seq![zero, zero, zero, one],
            ],
    {
        let m = Matrix4 {
            data: [
                [vector.get_x(), zero, zero, zero],
                [zero, vector.get_y(), zero, zero],
                [zero, zero, vector.get_z(), zero],
                [zero, zero, zero, one],
            ],
        };
        assert(m@ =~~= seq![
            seq![vector@.0, zero, zero, zero],
            seq![zero, vector@.1, zero, zero],
            seq![zero, zero, vector@.2, zero],
            seq![zero, zero, zero, one],
        ]);
        m
    }

    /// The 3×3 matrix left when row `row` and column `col` are struck out.
    pub fn minor(&self, row: usize, col: usize) -> (m: Result<Matrix3<T>, MathError>)
        ensures
            row < 4 && col < 4 ==> m is Ok && m->Ok_0@ == minor_of(self@, row as int, col as int),
            !(row < 4 && col < 4) ==> m == Err::<Matrix3<T>, MathError>(
                MathError::IndexOutOfRange { row, col, size: 4 },
            ),
    {
        if row < 4 && col < 4 {
            let d = &self.data;
            let r0: usize = if 0 < row { 0 } else { 1 };
            let r1: usize = if 1 < row { 1 } else { 2 };
            let r2: usize = if 2 < row { 2 } else { 3 };
            let c0: usize = if 0 < col { 0 } else { 1 };
            let c1: usize = if 1 < col { 1 } else { 2 };
            let c2: usize = if 2 < col { 2 } else { 3 };
            let m = Matrix3::from_rows(
                [
                    [d[r0][c0], d[r0][c1], d[r0][c2]],
                    [d[r1][c0], d[r1][c1], d[r1][c2]],
                    [d[r2][c0], d[r2][c1], d[r2][c2]],
                ],
            );
            assert(m@ =~~= minor_of(self@, row as int, col as int));
            Ok(m)
        } else {
            Err(MathError::IndexOutOfRange { row, col, size: 4 })
        }
    }
}

impl<T: Copy> Matrix<T> for Matrix4<T> {
    open spec fn order() -> nat {
        4
    }

    proof fn lemma_square(&self) {
    }

    proof fn lemma_view_determines(a: Self, b: Self) {
        assert forall|r: int| 0 <= r < 4 implies a.data[r] == b.data[r] by {
            assert forall|c: int| 0 <= c < 4 implies a.data[r][c] == b.data[r][c] by {
                assert(a@[r][c] == a.cell(r, c));
                assert(b@[r][c] == b.cell(r, c));
            }
            assert(a.data[r] =~= b.data[r]);
        }
        assert(a.data =~= b.data);
    }

    fn identity(zero: T, one: T) -> (m: Self) {
        let m = Matrix4 {
            data: [
                [one, zero, zero, zero],
                [zero, one, zero, zero],
                [zero, zero, one, zero],
                [zero, zero, zero, one],
            ],
        };
        assert(m@ =~~= diagonal_cells(4, one, zero));
        m
    }

    fn zero(zero: T) -> (m: Self) {
        let m = Matrix4 {
            data: [
                [zero, zero, zero, zero],
                [zero, zero, zero, zero],
                [zero, zero, zero, zero],
                [zero, zero, zero, zero],
            ],
        };
        assert(m@ =~~= diagonal_cells(4, zero, zero));
        m
    }

    fn set_value(&mut self, row: usize, col: usize, value: T) -> (done: Result<(), MathError>) {
        if row < 4 && col < 4 {
            self.data[row][col] = value;
            assert(self@ =~~= with_cell(old(self)@, row as int, col as int, value));
            Ok(())
        } else {
            Err(MathError::IndexOutOfRange { row, col, size: 4 })
        }
    }

    fn get_value(&self, row: usize, col: usize) -> (value: Result<T, MathError>) {
        if row < 4 && col < 4 {
            Ok(self.data[row][col])
        } else {
            Err(MathError::IndexOutOfRange { row, col, size: 4 })
        }
    }

    fn transpose(&self) -> (t: Self) {
        let d = &self.data;
        let t = Matrix4 {
            data: [
                [d[0][0], d[1][0], d[2][0], d[3][0]],
                [d[0][1], d[1][1], d[2][1], d[3][1]],
                [d[0][2], d[1][2], d[2][2], d[3][2]],
                [d[0][3], d[1][3], d[2][3], d[3][3]],
            ],
        };
        assert(t@ =~~= transposed(self@));
        t
    }

    fn get_size(&self) -> (size: usize) {
        4
    }
}

} // verus!
