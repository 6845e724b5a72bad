//! Fixed-size vectors and matrices for gradients and Hessians.
//!
//! Both are plain arrays whose sizes are part of the type: nothing is
//! allocated, nothing grows, and an array of another length is a different
//! type.

use vstd::prelude::*;
use vstd::array::*;
use vstd::string::*;
use crate::scalar::{num, times, Binary, Scalar, Unary};

verus! {

/// The array that holds the elements of `s`, for a sequence of length `N`.
pub closed spec fn array_of<T, const N: usize>(s: Seq<T>) -> [T; N] {
    choose|a: [T; N]| a@ == s
}

proof fn lemma_array_prefix<T, const N: usize>(s: Seq<T>, k: nat) -> (a: [T; N])
    requires
        k <= N,
        s.len() == N,
    ensures
        forall|i: int| 0 <= i < k ==> a@[i] == s[i],
    decreases k,
{
    if k == 0 {
        arbitrary()
    } else {
        let b = lemma_array_prefix::<T, N>(s, (k - 1) as nat);
        spec_array_update(b, k - 1, s[k - 1])
    }
}

/// `array_of(s)` holds exactly the elements of `s`.
pub broadcast proof fn lemma_array_of<T, const N: usize>(s: Seq<T>)
    requires
        s.len() == N,
    ensures
        (#[trigger] array_of::<T, N>(s))@ == s,
{
    let a = lemma_array_prefix::<T, N>(s, N as nat);
    assert(a@ =~= s);
}

/// A vector of exactly `N` elements.
#[derive(Clone, Copy, Debug, PartialEq)]
pub struct StaticVec<T, const N: usize> {
    pub data: [T; N],
}

impl<T, const N: usize> View for StaticVec<T, N> {
    type V = Seq<T>;

    open spec fn view(&self) -> Seq<T> {
        self.data@
    }
}

impl<T, const N: usize> StaticVec<T, N> {
    /// The vector whose element `i` is `f(i)`.
    pub open spec fn build(f: spec_fn(int) -> T) -> Self {
        StaticVec { data: array_of(Seq::new(N as nat, f)) }
    }

    /// Element `i`.
    pub open spec fn spec_index(self, i: int) -> T {
        self.data@[i]
    }

    /// A vector is determined by its elements.
    pub proof fn lemma_build(self, f: spec_fn(int) -> T)
        requires
            forall|i: int| 0 <= i < N ==> self[i] == f(i),
        ensures
            self == Self::build(f),
    {
        let a = array_of::<T, N>(Seq::new(N as nat, f));
        lemma_array_of::<T, N>(Seq::new(N as nat, f));
        assert forall|i: int| 0 <= i < N implies self.data[i] == a[i] by {
            assert(self[i] == f(i));
            assert(a@[i] == f(i));
        }
        assert(self.data =~= a);
    }

    /// Vectors with the same elements are equal.
    pub proof fn lemma_ext(self, other: Self)
        requires
            forall|i: int| 0 <= i < N ==> self[i] == other[i],
        ensures
            self == other,
    {
        assert forall|i: int| 0 <= i < N implies self.data[i] == other.data[i] by {
            assert(self[i] == other[i]);
        }
        assert(self.data =~= other.data);
    }

    /// Element `i` of `build(f)` is `f(i)`.
    pub broadcast proof fn lemma_build_index(f: spec_fn(int) -> T, i: int)
        requires
            0 <= i < N,
        ensures
            #[trigger] Self::build(f)[i] == f(i),
    {
        lemma_array_of::<T, N>(Seq::new(N as nat, f));
    }

    /// The vector that holds the elements of `data`.
    pub fn new_vec(data: [T; N]) -> (r: Self)
        ensures
            r.data == data,
    {
        StaticVec { data }
    }

    /// The elements as an array.
    pub fn raw_array(&self) -> (r: &[T; N])
        ensures
            *r == self.data,
    {
        &self.data
    }
}

impl<T: Copy, const N: usize> StaticVec<T, N> {
    /// Element `i`.
    pub fn get(&self, i: usize) -> (r: T)
        requires
            i < N,
        ensures
            r == self[i as int],
    {
        self.data[i]
    }

    /// The vector whose element `i` is what `g` returns for `i`. `fill` is
    /// any value of the element type; it does not show in the result.
    pub(crate) fn tabulate<G: Fn(usize) -> T>(
        fill: T,
        g: G,
        Ghost(f): Ghost<spec_fn(int) -> T>,
    ) -> (r: Self)
        requires
            forall|i: usize| i < N ==> call_requires(g, (i,)),
            forall|i: usize, y: T| i < N && call_ensures(g, (i,), y) ==> y == f(i as int),
        ensures
            r == Self::build(f),
    {
        let mut data: [T; N] = [fill; N];
        let mut i: usize = 0;
        while i < N
            invariant
                i <= N,
                forall|k: usize| k < N ==> call_requires(g, (k,)),
                forall|k: usize, y: T| k < N && call_ensures(g, (k,), y) ==> y == f(k as int),
                forall|k: int| 0 <= k < i ==> data@[k] == f(k),
            decreases N - i,
        {
            data[i] = g(i);
            i += 1;
        }
        let r = StaticVec { data };
        proof {
            r.lemma_build(f);
        }
        r
    }

    /// The vector of what `g` returns for each element, in order.
    pub fn map<B: Scalar, G: Fn(T) -> B>(&self, g: G) -> (r: StaticVec<B, N>)
        requires
            forall|i: int| 0 <= i < N ==> call_requires(g, (self[i],)),
        ensures
            forall|i: int| 0 <= i < N ==> call_ensures(g, (self[i],), #[trigger] r[i]),
    {
        let mut data: [B; N] = [B::zero(); N];
        let mut i: usize = 0;
        while i < N
            invariant
                i <= N,
                forall|k: int| 0 <= k < N ==> call_requires(g, (self[k],)),
                forall|k: int| 0 <= k < i ==> call_ensures(g, (self[k],), #[trigger] data@[k]),
            decreases N - i,
        {
            data[i] = g(self.get(i));
            i += 1;
        }
        StaticVec { data }
    }
}

/// The texts of `items` with `", "` between neighbours.
pub open spec fn joined(items: Seq<Seq<char>>) -> Seq<char>
    decreases items.len(),
{
    if items.len() == 0 {
        Seq::empty()
    } else if items.len() == 1 {
        items[0]
    } else {
        joined(items.drop_last()) + ", "@ + items.last()
    }
}

/// The text of a list: the items between square brackets, separated by
/// `", "`.
pub open spec fn list_text(items: Seq<Seq<char>>) -> Seq<char> {
    "["@ + joined(items) + "]"@
}

impl<T: Scalar, const N: usize> StaticVec<T, N> {
    /// The texts of the elements, in order.
    pub open spec fn item_texts(self) -> Seq<Seq<char>> {
        Seq::new(N as nat, |i: int| self[i].render_spec()@)
    }

    /// The canonical text: `[e0, e1, ..]`.
    pub open spec fn text_spec(self) -> Seq<char> {
        list_text(self.item_texts())
    }

    /// The canonical text: the elements between square brackets, separated
    /// by `", "`.
    pub fn text(&self) -> (s: String)
        ensures
            s@ == self.text_spec(),
    {
        let mut s = String::from_str("[");
        let mut i: usize = 0;
        while i < N
            invariant
                i <= N,
                s@ == "["@ + joined(self.item_texts().take(i as int)),
            decreases N - i,
        {
            let ghost before = self.item_texts().take(i as int);
            let ghost after = self.item_texts().take(i + 1);
            proof {
                assert(after.drop_last() =~= before);
                assert(after.last() == self[i as int].render_spec()@);
            }
            if i > 0 {
                s.append(", ");
            }
            s.append(self.get(i).render().as_str());
            proof {
                if i > 0 {
                    assert(s@ =~= "["@ + (joined(before) + ", "@ + after.last()));
                } else {
                    assert(joined(before) =~= Seq::<char>::empty());
                    assert(s@ =~= "["@ + after.last());
                }
            }
            i += 1;
        }
        proof {
            assert(self.item_texts().take(N as int) =~= self.item_texts());
        }
        s.append("]");
        s
    }

    /// The vector of zeros.
    pub open spec fn zeros_spec() -> Self {
        Self::build(|i: int| num::<T>(0))
    }

    /// `f` applied to each element.
    pub open spec fn unary_spec(self, f: Unary) -> Self {
        Self::build(|i: int| self[i].unary_spec(f))
    }

    /// `op` applied to the elements of `self` and `rhs` pair by pair.
    pub open spec fn binary_spec(self, op: Binary, rhs: Self) -> Self {
        Self::build(|i: int| self[i].binary_spec(op, rhs[i]))
    }

    /// Each element times `factor`.
    pub open spec fn scale_spec(self, factor: T) -> Self {
        Self::build(|i: int| times(self[i], factor))
    }

    /// The vector of zeros.
    pub fn zeros() -> (r: Self)
        ensures
            r == Self::zeros_spec(),
    {
        let zero = T::zero();
        let g = |i: usize| -> (y: T)
            ensures
                y == zero,
        {
            zero
        };
        Self::tabulate(zero, g, Ghost(|i: int| num::<T>(0)))
    }

    /// Applies `f` to each element.
    pub fn unary(&self, f: Unary) -> (r: Self)
        ensures
            r == self.unary_spec(f),
    {
        let g = |i: usize| -> (y: T)
            requires
                i < N,
            ensures
                y == self[i as int].unary_spec(f),
        {
            self.get(i).unary(f)
        };
        Self::tabulate(T::zero(), g, Ghost(|i: int| self[i].unary_spec(f)))
    }

    /// Applies `op` to the elements of `self` and `rhs` pair by pair.
    pub fn binary(&self, op: Binary, rhs: &Self) -> (r: Self)
        ensures
            r == self.binary_spec(op, *rhs),
    {
        let g = |i: usize| -> (y: T)
            requires
                i < N,
            ensures
                y == self[i as int].binary_spec(op, rhs[i as int]),
        {
            self.get(i).binary(op, rhs.get(i))
        };
        Self::tabulate(T::zero(), g, Ghost(|i: int| self[i].binary_spec(op, rhs[i])))
    }

    /// Multiplies each element by `factor`.
    pub fn scale(&self, factor: T) -> (r: Self)
        ensures
            r == self.scale_spec(factor),
    {
        let g = |i: usize| -> (y: T)
            requires
                i < N,
            ensures
                y == times(self[i as int], factor),
        {
            self.get(i).mul(factor)
        };
        Self::tabulate(factor, g, Ghost(|i: int| times(self[i], factor)))
    }
}

/// A matrix of exactly `M` rows and `N` columns.
#[derive(Clone, Copy, Debug, PartialEq)]
pub struct StaticMat<T, const M: usize, const N: usize> {
    pub data: [[T; N]; M],
}

impl<T, const M: usize, const N: usize> View for StaticMat<T, M, N> {
    type V = Seq<Seq<T>>;

    open spec fn view(&self) -> Seq<Seq<T>> {
        Seq::new(M as nat, |i: int| self.data@[i]@)
    }
}

impl<T, const M: usize, const N: usize> StaticMat<T, M, N> {
    /// The matrix whose entry in row `i` and column `j` is `f(i, j)`.
    pub open spec fn build(f: spec_fn(int, int) -> T) -> Self {
        StaticMat {
            data: array_of(
                Seq::new(M as nat, |i: int| array_of::<T, N>(Seq::new(N as nat, |j: int| f(i, j)))),
            ),
        }
    }

    /// The entry in row `i` and column `j`.
    pub open spec fn at(self, i: int, j: int) -> T {
        self.data@[i]@[j]
    }

    /// A matrix is determined by its entries.
    pub proof fn lemma_build(self, f: spec_fn(int, int) -> T)
        requires
            forall|i: int, j: int| 0 <= i < M && 0 <= j < N ==> self.at(i, j) == f(i, j),
        ensures
            self == Self::build(f),
    {
        let rows = Seq::new(
            M as nat,
            |i: int| array_of::<T, N>(Seq::new(N as nat, |j: int| f(i, j))),
        );
        let a = array_of::<[T; N], M>(rows);
        lemma_array_of::<[T; N], M>(rows);
        assert forall|i: int| 0 <= i < M implies self.data[i] == a[i] by {
            let row = Seq::new(N as nat, |j: int| f(i, j));
            lemma_array_of::<T, N>(row);
            assert(a@[i] == array_of::<T, N>(row));
            assert forall|j: int| 0 <= j < N implies self.data[i][j] == a[i][j] by {
                assert(self.at(i, j) == f(i, j));
                assert(a@[i]@[j] == f(i, j));
            }
            assert(self.data[i] =~= a[i]);
        }
        assert(self.data =~= a);
    }

    /// Matrices with the same entries are equal.
    pub proof fn lemma_ext(self, other: Self)
        requires
            forall|i: int, j: int| 0 <= i < M && 0 <= j < N ==> self.at(i, j) == other.at(i, j),
        ensures
            self == other,
    {
        assert forall|i: int| 0 <= i < M implies self.data[i] == other.data[i] by {
            assert forall|j: int| 0 <= j < N implies self.data[i][j] == other.data[i][j] by {
                assert(self.at(i, j) == other.at(i, j));
            }
            assert(self.data[i] =~= other.data[i]);
        }
        assert(self.data =~= other.data);
    }

    /// The entry of `build(f)` in row `i` and column `j` is `f(i, j)`.
    pub broadcast proof fn lemma_build_at(f: spec_fn(int, int) -> T, i: int, j: int)
        requires
            0 <= i < M,
            0 <= j < N,
        ensures
            #[trigger] Self::build(f).at(i, j) == f(i, j),
    {
        let rows = Seq::new(
            M as nat,
            |i: int| array_of::<T, N>(Seq::new(N as nat, |j: int| f(i, j))),
        );
        lemma_array_of::<[T; N], M>(rows);
        lemma_array_of::<T, N>(Seq::new(N as nat, |j: int| f(i, j)));
    }

    /// The matrix that holds the rows of `data`.
    pub fn new(data: [[T; N]; M]) -> (r: Self)
        ensures
            r.data == data,
    {
        StaticMat { data }
    }

    /// The rows as an array of arrays.
    pub fn raw_data(&self) -> (r: &[[T; N]; M])
        ensures
            *r == self.data,
    {
        &self.data
    }
}

impl<T: Copy, const M: usize, const N: usize> StaticMat<T, M, N> {
    /// The entry in row `i` and column `j`.
    pub fn get(&self, i: usize, j: usize) -> (r: T)
        requires
            i < M,
            j < N,
        ensures
            r == self.at(i as int, j as int),
    {
        self.data[i][j]
    }

    /// Row `i`.
    pub fn row(&self, i: usize) -> (r: StaticVec<T, N>)
        requires
            i < M,
        ensures
            r.data == self.data@[i as int],
    {
        StaticVec { data: self.data[i] }
    }

    /// The matrix whose entry in row `i` and column `j` is what `g` returns
    /// for `(i, j)`. `fill` is any value of the element type; it does not
    /// show in the result.
    pub(crate) fn tabulate<G: Fn(usize, usize) -> T>(
        fill: T,
        g: G,
        Ghost(f): Ghost<spec_fn(int, int) -> T>,
    ) -> (r: Self)
        requires
            forall|i: usize, j: usize| i < M && j < N ==> call_requires(g, (i, j)),
            forall|i: usize, j: usize, y: T|
                i < M && j < N && call_ensures(g, (i, j), y) ==> y == f(i as int, j as int),
        ensures
            r == Self::build(f),
    {
        let mut data: [[T; N]; M] = [[fill; N]; M];
        let mut i: usize = 0;
        while i < M
            invariant
                i <= M,
                forall|k: usize, l: usize| k < M && l < N ==> call_requires(g, (k, l)),
                forall|k: usize, l: usize, y: T|
                    k < M && l < N && call_ensures(g, (k, l), y) ==> y == f(k as int, l as int),
                forall|k: int, l: int| 0 <= k < i && 0 <= l < N ==> data@[k]@[l] == f(k, l),
            decreases M - i,
        {
            let mut row: [T; N] = [fill; N];
            let mut j: usize = 0;
            while j < N
                invariant
                    i < M,
                    j <= N,
                    forall|k: usize, l: usize| k < M && l < N ==> call_requires(g, (k, l)),
                    forall|k: usize, l: usize, y: T|
                        k < M && l < N && call_ensures(g, (k, l), y) ==> y == f(
                            k as int,
                            l as int,
                        ),
                    forall|l: int| 0 <= l < j ==> row@[l] == f(i as int, l),
                decreases N - j,
            {
                row[j] = g(i, j);
                j += 1;
            }
            data[i] = row;
            i += 1;
        }
        let r = StaticMat { data };
        proof {
            r.lemma_build(f);
        }
        r
    }

    /// The matrix of what `g` returns for each entry.
    pub fn map<B: Scalar, G: Fn(T) -> B>(&self, g: G) -> (r: StaticMat<B, M, N>)
        requires
            forall|i: int, j: int| 0 <= i < M && 0 <= j < N ==> call_requires(g, (self.at(i, j),)),
        ensures
            forall|i: int, j: int|
                0 <= i < M && 0 <= j < N ==> call_ensures(
                    g,
                    (self.at(i, j),),
                    #[trigger] r.at(i, j),
                ),
    {
        let fill = B::zero();
        let mut data: [[B; N]; M] = [[fill; N]; M];
        let mut i: usize = 0;
        while i < M
            invariant
                i <= M,
                forall|k: int, l: int|
                    0 <= k < M && 0 <= l < N ==> call_requires(g, (self.at(k, l),)),
                forall|k: int, l: int|
                    0 <= k < i && 0 <= l < N ==> call_ensures(
                        g,
                        (self.at(k, l),),
                        #[trigger] data@[k]@[l],
                    ),
            decreases M - i,
        {
            let mut row: [B; N] = [fill; N];
            let mut j: usize = 0;
            while j < N
                invariant
                    i < M,
                    j <= N,
                    forall|k: int, l: int|
                        0 <= k < M && 0 <= l < N ==> call_requires(g, (self.at(k, l),)),
                    forall|l: int|
                        0 <= l < j ==> call_ensures(g, (self.at(i as int, l),), #[trigger] row@[l]),
                decreases N - j,
            {
                row[j] = g(self.get(i, j));
                j += 1;
            }
            data[i] = row;
            i += 1;
        }
        StaticMat { data }
    }
}

impl<T: Scalar, const M: usize, const N: usize> StaticMat<T, M, N> {
    /// The texts of the rows, in order.
    pub open spec fn row_texts(self) -> Seq<Seq<char>> {
        Seq::new(M as nat, |i: int| (StaticVec::<T, N> { data: self.data@[i] }).text_spec())
    }

    /// The canonical text: the rows as lists, separated by `", "`, and the
    /// whole between square brackets where there is more than one row.
    pub open spec fn text_spec(self) -> Seq<char> {
        if M > 1 {
            list_text(self.row_texts())
        } else {
            joined(self.row_texts())
        }
    }

    /// The canonical text.
    pub fn text(&self) -> (s: String)
        ensures
            s@ == self.text_spec(),
    {
        let mut s = String::new();
        if M > 1 {
            s.append("[");
        }
        let ghost open = s@;
        let mut i: usize = 0;
        while i < M
            invariant
                i <= M,
                s@ == open + joined(self.row_texts().take(i as int)),
            decreases M - i,
        {
            let ghost before = self.row_texts().take(i as int);
            let ghost after = self.row_texts().take(i + 1);
            proof {
                assert(after.drop_last() =~= before);
                assert(after.last() == (StaticVec::<T, N> {
                    data: self.data@[i as int],
                }).text_spec());
            }
            if i > 0 {
                s.append(", ");
            }
            s.append(self.row(i).text().as_str());
            proof {
                if i > 0 {
                    assert(s@ =~= open + (joined(before) + ", "@ + after.last()));
                } else {
                    assert(joined(before) =~= Seq::<char>::empty());
                    assert(s@ =~= open + after.last());
                }
            }
            i += 1;
        }
        proof {
            assert(self.row_texts().take(M as int) =~= self.row_texts());
        }
        if M > 1 {
            s.append("]");
        }
        proof {
            if M <= 1 {
                assert(open =~= Seq::<char>::empty());
                assert(s@ =~= joined(self.row_texts()));
            }
        }
        s
    }

    /// The matrix of zeros.
    pub open spec fn zeros_spec() -> Self {
        Self::build(|i: int, j: int| num::<T>(0))
    }

    /// `f` applied to each entry.
    pub open spec fn unary_spec(self, f: Unary) -> Self {
        Self::build(|i: int, j: int| self.at(i, j).unary_spec(f))
    }

    /// `op` applied to the entries of `self` and `rhs` pair by pair.
    pub open spec fn binary_spec(self, op: Binary, rhs: Self) -> Self {
        Self::build(|i: int, j: int| self.at(i, j).binary_spec(op, rhs.at(i, j)))
    }

    /// Each entry times `factor`.
    pub open spec fn scale_spec(self, factor: T) -> Self {
        Self::build(|i: int, j: int| times(self.at(i, j), factor))
    }

    /// The matrix of zeros.
    pub fn zeros() -> (r: Self)
        ensures
            r == Self::zeros_spec(),
    {
        let zero = T::zero();
        let g = |i: usize, j: usize| -> (y: T)
            ensures
                y == zero,
        {
            zero
        };
        Self::tabulate(zero, g, Ghost(|i: int, j: int| num::<T>(0)))
    }

    /// Applies `f` to each entry.
    pub fn unary(&self, f: Unary) -> (r: Self)
        ensures
            r == self.unary_spec(f),
    {
        let g = |i: usize, j: usize| -> (y: T)
            requires
                i < M,
                j < N,
            ensures
                y == self.at(i as int, j as int).unary_spec(f),
        {
            self.get(i, j).unary(f)
        };
        Self::tabulate(T::zero(), g, Ghost(|i: int, j: int| self.at(i, j).unary_spec(f)))
    }

    /// Applies `op` to the entries of `self` and `rhs` pair by pair.
    pub fn binary(&self, op: Binary, rhs: &Self) -> (r: Self)
        ensures
            r == self.binary_spec(op, *rhs),
    {
        let g = |i: usize, j: usize| -> (y: T)
            requires
                i < M,
                j < N,
            ensures
                y == self.at(i as int, j as int).binary_spec(op, rhs.at(i as int, j as int)),
        {
            self.get(i, j).binary(op, rhs.get(i, j))
        };
        Self::tabulate(
            T::zero(),
            g,
            Ghost(|i: int, j: int| self.at(i, j).binary_spec(op, rhs.at(i, j))),
        )
    }

    /// Multiplies each entry by `factor`.
    pub fn scale(&self, factor: T) -> (r: Self)
        ensures
            r == self.scale_spec(factor),
    {
        let g = |i: usize, j: usize| -> (y: T)
            requires
                i < M,
                j < N,
            ensures
                y == times(self.at(i as int, j as int), factor),
        {
            self.get(i, j).mul(factor)
        };
        Self::tabulate(factor, g, Ghost(|i: int, j: int| times(self.at(i, j), factor)))
    }
}

} // verus!
