//! Pixel and cell coordinates.

use crate::scale::{clamp_u32, mul_floor, Scale};
use vstd::prelude::*;
use vstd::std_specs::convert::FromSpec;
use vstd::std_specs::ops::{
    AddSpec, BitAndSpec, BitOrSpec, BitXorSpec, DivSpec, MulSpec, RemSpec, ShlSpec, ShrSpec,
    SubSpec,
};

verus! {

/// The integer type of every coordinate and extent.
pub type SizeType = u32;

/// `a + b`, at most `u32::MAX`.
pub open spec fn sat_add(a: u32, b: u32) -> u32 {
    if a + b > u32::MAX {
        u32::MAX
    } else {
        (a + b) as u32
    }
}

/// `a - b`, at least zero.
pub open spec fn sat_sub(a: u32, b: u32) -> u32 {
    if a < b {
        0
    } else {
        (a - b) as u32
    }
}

/// `a * b`, at most `u32::MAX`.
pub open spec fn sat_mul(a: u32, b: u32) -> u32 {
    if a * b > u32::MAX {
        u32::MAX
    } else {
        (a * b) as u32
    }
}

/// `a / b`, rounded down.
pub open spec fn quot(a: u32, b: u32) -> u32 {
    a / b
}

/// What `a / b` leaves over.
pub open spec fn remainder(a: u32, b: u32) -> u32 {
    a % b
}

/// `a` shifted right by `b` bits.
pub open spec fn shift_right(a: u32, b: u32) -> u32 {
    a >> b
}

/// `a` shifted left by `b` bits; the bits that leave the 32 are dropped.
pub open spec fn shift_left(a: u32, b: u32) -> u32 {
    a << b
}

/// The bits set in both.
pub open spec fn bit_and(a: u32, b: u32) -> u32 {
    a & b
}

/// The bits set in either.
pub open spec fn bit_or(a: u32, b: u32) -> u32 {
    a | b
}

/// The bits set in exactly one.
pub open spec fn bit_xor(a: u32, b: u32) -> u32 {
    a ^ b
}

fn exec_sat_add(a: u32, b: u32) -> (r: u32)
    ensures
        r == sat_add(a, b),
{
    a.saturating_add(b)
}

fn exec_sat_sub(a: u32, b: u32) -> (r: u32)
    ensures
        r == sat_sub(a, b),
{
    a.saturating_sub(b)
}

fn exec_sat_mul(a: u32, b: u32) -> (r: u32)
    ensures
        r == sat_mul(a, b),
{
    assert((a as int) * (b as int) <= 0xffff_ffff * 0xffff_ffff) by (nonlinear_arith);
    let p: u64 = (a as u64) * (b as u64);
    if p > 0xffff_ffffu64 {
        u32::MAX
    } else {
        p as u32
    }
}

fn exec_quot(a: u32, b: u32) -> (r: u32)
    requires
        b != 0,
    ensures
        r == quot(a, b),
{
    a / b
}

fn exec_remainder(a: u32, b: u32) -> (r: u32)
    requires
        b != 0,
    ensures
        r == remainder(a, b),
{
    a % b
}

fn exec_shift_right(a: u32, b: u32) -> (r: u32)
    requires
        b < 32,
    ensures
        r == shift_right(a, b),
{
    a >> b
}

fn exec_shift_left(a: u32, b: u32) -> (r: u32)
    requires
        b < 32,
    ensures
        r == shift_left(a, b),
{
    a << b
}

fn exec_bit_and(a: u32, b: u32) -> (r: u32)
    ensures
        r == bit_and(a, b),
{
    a & b
}

fn exec_bit_or(a: u32, b: u32) -> (r: u32)
    ensures
        r == bit_or(a, b),
{
    a | b
}

fn exec_bit_xor(a: u32, b: u32) -> (r: u32)
    ensures
        r == bit_xor(a, b),
{
    a ^ b
}

/// A point `(x, y)`: a pixel inside the source image, or a terminal cell.
#[derive(Debug, Clone, Copy, PartialEq, Eq, Structural)]
pub struct Position {
    pub x: SizeType,
    pub y: SizeType,
}

impl Position {
    /// The point `(x, y)`.
    pub fn new(x: SizeType, y: SizeType) -> (p: Self)
        ensures
            p == (Position { x, y }),
    {
        Self { x, y }
    }

    /// The two coordinates, `x` first.
    pub fn into_array(self) -> (a: [SizeType; 2])
        ensures
            a@ == seq![self.x, self.y],
    {
        let a: [SizeType; 2] = [self.x, self.y];
        assert(a@ =~= seq![self.x, self.y]);
        a
    }

    /// Both components times `scale`, each rounded down and at most
    /// `u32::MAX`.
    pub open spec fn scaled(self, scale: Scale) -> Position {
        Position {
            x: clamp_u32(mul_floor(self.x as int, scale.raw as int)) as u32,
            y: clamp_u32(mul_floor(self.y as int, scale.raw as int)) as u32,
        }
    }

    /// The extent that `self` covers at `scale`: both components times the
    /// ratio, fractions dropped.
    pub fn mul_scale(self, scale: Scale) -> (p: Self)
        ensures
            p == self.scaled(scale),
    {
        Position { x: scale.mul_floor(self.x), y: scale.mul_floor(self.y) }
    }
}

impl From<[SizeType; 2]> for Position {
    fn from(value: [SizeType; 2]) -> (p: Self) {
        Position::new(value[0], value[1])
    }
}

impl vstd::std_specs::convert::FromSpecImpl<[SizeType; 2]> for Position {
    open spec fn obeys_from_spec() -> bool {
        true
    }

    open spec fn from_spec(value: [SizeType; 2]) -> Self {
        Position { x: value[0], y: value[1] }
    }
}

impl From<(SizeType, SizeType)> for Position {
    fn from(value: (SizeType, SizeType)) -> (p: Self) {
        Position::new(value.0, value.1)
    }
}

impl vstd::std_specs::convert::FromSpecImpl<(SizeType, SizeType)> for Position {
    open spec fn obeys_from_spec() -> bool {
        true
    }

    open spec fn from_spec(value: (SizeType, SizeType)) -> Self {
        Position { x: value.0, y: value.1 }
    }
}

impl From<SizeType> for Position {
    fn from(value: SizeType) -> (p: Self) {
        Position::new(value, value)
    }
}

impl vstd::std_specs::convert::FromSpecImpl<SizeType> for Position {
    open spec fn obeys_from_spec() -> bool {
        true
    }

    open spec fn from_spec(value: SizeType) -> Self {
        Position { x: value, y: value }
    }
}

impl Default for Position {
    /// The origin `(0, 0)`.
    fn default() -> (p: Self)
        ensures
            p == (Position { x: 0, y: 0 }),
    {
        Position::new(0, 0)
    }
}

/// Adds component by component; a sum that does not fit stays at `u32::MAX`.
impl core::ops::Add for Position {
    type Output = Self;

    fn add(self, rhs: Self) -> (out: Self) {
        Position { x: exec_sat_add(self.x, rhs.x), y: exec_sat_add(self.y, rhs.y) }
    }
}

impl vstd::std_specs::ops::AddSpecImpl for Position {
    open spec fn obeys_add_spec() -> bool {
        true
    }

    open spec fn add_req(self, rhs: Self) -> bool {
        true
    }

    open spec fn add_spec(self, rhs: Self) -> Self {
        Position { x: sat_add(self.x, rhs.x), y: sat_add(self.y, rhs.y) }
    }
}

impl core::ops::AddAssign for Position {
    fn add_assign(&mut self, rhs: Self)
        requires
            old(self).add_req(rhs),
        ensures
            *final(self) == old(self).add_spec(rhs),
    {
        self.x = exec_sat_add(self.x, rhs.x);
        self.y = exec_sat_add(self.y, rhs.y);
    }
}

/// Subtracts component by component; a difference below zero stays at zero.
impl core::ops::Sub for Position {
    type Output = Self;

    fn sub(self, rhs: Self) -> (out: Self) {
        Position { x: exec_sat_sub(self.x, rhs.x), y: exec_sat_sub(self.y, rhs.y) }
    }
}

impl vstd::std_specs::ops::SubSpecImpl for Position {
    open spec fn obeys_sub_spec() -> bool {
        true
    }

    open spec fn sub_req(self, rhs: Self) -> bool {
        true
    }

    open spec fn sub_spec(self, rhs: Self) -> Self {
        Position { x: sat_sub(self.x, rhs.x), y: sat_sub(self.y, rhs.y) }
    }
}

impl core::ops::SubAssign for Position {
    fn sub_assign(&mut self, rhs: Self)
        requires
            old(self).sub_req(rhs),
        ensures
            *final(self) == old(self).sub_spec(rhs),
    {
        self.x = exec_sat_sub(self.x, rhs.x);
        self.y = exec_sat_sub(self.y, rhs.y);
    }
}

/// Multiplies component by component; a product that does not fit stays at `u32::MAX`.
impl core::ops::Mul for Position {
    type Output = Self;

    fn mul(self, rhs: Self) -> (out: Self) {
        Position { x: exec_sat_mul(self.x, rhs.x), y: exec_sat_mul(self.y, rhs.y) }
    }
}

impl vstd::std_specs::ops::MulSpecImpl for Position {
    open spec fn obeys_mul_spec() -> bool {
        true
    }

    open spec fn mul_req(self, rhs: Self) -> bool {
        true
    }

    open spec fn mul_spec(self, rhs: Self) -> Self {
        Position { x: sat_mul(self.x, rhs.x), y: sat_mul(self.y, rhs.y) }
    }
}

impl core::ops::MulAssign for Position {
    fn mul_assign(&mut self, rhs: Self)
        requires
            old(self).mul_req(rhs),
        ensures
            *final(self) == old(self).mul_spec(rhs),
    {
        self.x = exec_sat_mul(self.x, rhs.x);
        self.y = exec_sat_mul(self.y, rhs.y);
    }
}

/// Divides component by component, rounding down.
impl core::ops::Div for Position {
    type Output = Self;

    fn div(self, rhs: Self) -> (out: Self) {
        Position { x: exec_quot(self.x, rhs.x), y: exec_quot(self.y, rhs.y) }
    }
}

impl vstd::std_specs::ops::DivSpecImpl for Position {
    open spec fn obeys_div_spec() -> bool {
        true
    }

    open spec fn div_req(self, rhs: Self) -> bool {
        rhs.x != 0 && rhs.y != 0
    }

    open spec fn div_spec(self, rhs: Self) -> Self {
        Position { x: quot(self.x, rhs.x), y: quot(self.y, rhs.y) }
    }
}

impl core::ops::DivAssign for Position {
    fn div_assign(&mut self, rhs: Self)
        requires
            old(self).div_req(rhs),
        ensures
            *final(self) == old(self).div_spec(rhs),
    {
        self.x = exec_quot(self.x, rhs.x);
        self.y = exec_quot(self.y, rhs.y);
    }
}

/// The remainders, component by component.
impl core::ops::Rem for Position {
    type Output = Self;

    fn rem(self, rhs: Self) -> (out: Self) {
        Position { x: exec_remainder(self.x, rhs.x), y: exec_remainder(self.y, rhs.y) }
    }
}

impl vstd::std_specs::ops::RemSpecImpl for Position {
    open spec fn obeys_rem_spec() -> bool {
        true
    }

    open spec fn rem_req(self, rhs: Self) -> bool {
        rhs.x != 0 && rhs.y != 0
    }

    open spec fn rem_spec(self, rhs: Self) -> Self {
        Position { x: remainder(self.x, rhs.x), y: remainder(self.y, rhs.y) }
    }
}

impl core::ops::RemAssign for Position {
    fn rem_assign(&mut self, rhs: Self)
        requires
            old(self).rem_req(rhs),
        ensures
            *final(self) == old(self).rem_spec(rhs),
    {
        self.x = exec_remainder(self.x, rhs.x);
        self.y = exec_remainder(self.y, rhs.y);
    }
}

/// Shifts each component right by the matching component of `rhs`.
impl core::ops::Shr for Position {
    type Output = Self;

    fn shr(self, rhs: Self) -> (out: Self) {
        Position { x: exec_shift_right(self.x, rhs.x), y: exec_shift_right(self.y, rhs.y) }
    }
}

impl vstd::std_specs::ops::ShrSpecImpl for Position {
    open spec fn obeys_shr_spec() -> bool {
        true
    }

    open spec fn shr_req(self, rhs: Self) -> bool {
        rhs.x < 32 && rhs.y < 32
    }

    open spec fn shr_spec(self, rhs: Self) -> Self {
        Position { x: shift_right(self.x, rhs.x), y: shift_right(self.y, rhs.y) }
    }
}

impl core::ops::ShrAssign for Position {
    fn shr_assign(&mut self, rhs: Self)
        requires
            old(self).shr_req(rhs),
        ensures
            *final(self) == old(self).shr_spec(rhs),
    {
        self.x = exec_shift_right(self.x, rhs.x);
        self.y = exec_shift_right(self.y, rhs.y);
    }
}

/// Shifts each component left by the matching component of `rhs`, dropping the bits that leave.
impl core::ops::Shl for Position {
    type Output = Self;

    fn shl(self, rhs: Self) -> (out: Self) {
        Position { x: exec_shift_left(self.x, rhs.x), y: exec_shift_left(self.y, rhs.y) }
    }
}

impl vstd::std_specs::ops::ShlSpecImpl for Position {
    open spec fn obeys_shl_spec() -> bool {
        true
    }

    open spec fn shl_req(self, rhs: Self) -> bool {
        rhs.x < 32 && rhs.y < 32
    }

    open spec fn shl_spec(self, rhs: Self) -> Self {
        Position { x: shift_left(self.x, rhs.x), y: shift_left(self.y, rhs.y) }
    }
}

impl core::ops::ShlAssign for Position {
    fn shl_assign(&mut self, rhs: Self)
        requires
            old(self).shl_req(rhs),
        ensures
            *final(self) == old(self).shl_spec(rhs),
    {
        self.x = exec_shift_left(self.x, rhs.x);
        self.y = exec_shift_left(self.y, rhs.y);
    }
}

/// Bitwise and, component by component.
impl core::ops::BitAnd for Position {
    type Output = Self;

    fn bitand(self, rhs: Self) -> (out: Self) {
        Position { x: exec_bit_and(self.x, rhs.x), y: exec_bit_and(self.y, rhs.y) }
    }
}

impl vstd::std_specs::ops::BitAndSpecImpl for Position {
    open spec fn obeys_bitand_spec() -> bool {
        true
    }

    open spec fn bitand_req(self, rhs: Self) -> bool {
        true
    }

    open spec fn bitand_spec(self, rhs: Self) -> Self {
        Position { x: bit_and(self.x, rhs.x), y: bit_and(self.y, rhs.y) }
    }
}

impl core::ops::BitAndAssign for Position {
    fn bitand_assign(&mut self, rhs: Self)
        requires
            old(self).bitand_req(rhs),
        ensures
            *final(self) == old(self).bitand_spec(rhs),
    {
        self.x = exec_bit_and(self.x, rhs.x);
        self.y = exec_bit_and(self.y, rhs.y);
    }
}

/// Bitwise or, component by component.
impl core::ops::BitOr for Position {
    type Output = Self;

    fn bitor(self, rhs: Self) -> (out: Self) {
        Position { x: exec_bit_or(self.x, rhs.x), y: exec_bit_or(self.y, rhs.y) }
    }
}

impl vstd::std_specs::ops::BitOrSpecImpl for Position {
    open spec fn obeys_bitor_spec() -> bool {
        true
    }

    open spec fn bitor_req(self, rhs: Self) -> bool {
        true
    }

    open spec fn bitor_spec(self, rhs: Self) -> Self {
        Position { x: bit_or(self.x, rhs.x), y: bit_or(self.y, rhs.y) }
    }
}

impl core::ops::BitOrAssign for Position {
    fn bitor_assign(&mut self, rhs: Self)
        requires
            old(self).bitor_req(rhs),
        ensures
            *final(self) == old(self).bitor_spec(rhs),
    {
        self.x = exec_bit_or(self.x, rhs.x);
        self.y = exec_bit_or(self.y, rhs.y);
    }
}

/// Bitwise exclusive or, component by component.
impl core::ops::BitXor for Position {
    type Output = Self;

    fn bitxor(self, rhs: Self) -> (out: Self) {
        Position { x: exec_bit_xor(self.x, rhs.x), y: exec_bit_xor(self.y, rhs.y) }
    }
}

impl vstd::std_specs::ops::BitXorSpecImpl for Position {
    open spec fn obeys_bitxor_spec() -> bool {
        true
    }

    open spec fn bitxor_req(self, rhs: Self) -> bool {
        true
    }

    open spec fn bitxor_spec(self, rhs: Self) -> Self {
        Position { x: bit_xor(self.x, rhs.x), y: bit_xor(self.y, rhs.y) }
    }
}

impl core::ops::BitXorAssign for Position {
    fn bitxor_assign(&mut self, rhs: Self)
        requires
            old(self).bitxor_req(rhs),
        ensures
            *final(self) == old(self).bitxor_spec(rhs),
    {
        self.x = exec_bit_xor(self.x, rhs.x);
        self.y = exec_bit_xor(self.y, rhs.y);
    }
}

} // verus!
