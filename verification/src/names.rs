//! The fixed names, suffixes and command words, as bytes.
use vstd::prelude::*;
use vstd::slice::slice_to_vec;

verus! {

/// `parch-builder`.
pub open spec fn lit_parch_builder() -> Seq<u8> {
    seq![112u8, 97u8, 114u8, 99u8, 104u8, 45u8, 98u8, 117u8, 105u8, 108u8, 100u8, 101u8, 114u8]
}

/// `parch-builder`, as bytes.
pub fn parch_builder() -> (v: Vec<u8>)
    ensures
        v@ == lit_parch_builder(),
{
    let a: [u8; 13] = [112u8, 97u8, 114u8, 99u8, 104u8, 45u8, 98u8, 117u8, 105u8, 108u8, 100u8, 101u8, 114u8];
    let v = slice_to_vec(a.as_slice());
    assert(v@ =~= lit_parch_builder());
    v
}

/// `manifests`.
pub open spec fn lit_manifests() -> Seq<u8> {
    seq![109u8, 97u8, 110u8, 105u8, 102u8, 101u8, 115u8, 116u8, 115u8]
}

/// `manifests`, as bytes.
pub fn manifests() -> (v: Vec<u8>)
    ensures
        v@ == lit_manifests(),
{
    let a: [u8; 9] = [109u8, 97u8, 110u8, 105u8, 102u8, 101u8, 115u8, 116u8, 115u8];
    let v = slice_to_vec(a.as_slice());
    assert(v@ =~= lit_manifests());
    v
}

/// `foundations`.
pub open spec fn lit_foundations() -> Seq<u8> {
    seq![102u8, 111u8, 117u8, 110u8, 100u8, 97u8, 116u8, 105u8, 111u8, 110u8, 115u8]
}

/// `foundations`, as bytes.
pub fn foundations() -> (v: Vec<u8>)
    ensures
        v@ == lit_foundations(),
{
    let a: [u8; 11] = [102u8, 111u8, 117u8, 110u8, 100u8, 97u8, 116u8, 105u8, 111u8, 110u8, 115u8];
    let v = slice_to_vec(a.as_slice());
    assert(v@ =~= lit_foundations());
    v
}

/// `images`.
pub open spec fn lit_images() -> Seq<u8> {
    seq![105u8, 109u8, 97u8, 103u8, 101u8, 115u8]
}

/// `images`, as bytes.
pub fn images() -> (v: Vec<u8>)
    ensures
        v@ == lit_images(),
{
    let a: [u8; 6] = [105u8, 109u8, 97u8, 103u8, 101u8, 115u8];
    let v = slice_to_vec(a.as_slice());
    assert(v@ =~= lit_images());
    v
}

/// `root`.
pub open spec fn lit_root() -> Seq<u8> {
    seq![114u8, 111u8, 111u8, 116u8]
}

/// `root`, as bytes.
pub fn root() -> (v: Vec<u8>)
    ensures
        v@ == lit_root(),
{
    let a: [u8; 4] = [114u8, 111u8, 111u8, 116u8];
    let v = slice_to_vec(a.as_slice());
    assert(v@ =~= lit_root());
    v
}

/// `boot`.
pub open spec fn lit_boot() -> Seq<u8> {
    seq![98u8, 111u8, 111u8, 116u8]
}

/// `boot`, as bytes.
pub fn boot() -> (v: Vec<u8>)
    ensures
        v@ == lit_boot(),
{
    let a: [u8; 4] = [98u8, 111u8, 111u8, 116u8];
    let v = slice_to_vec(a.as_slice());
    assert(v@ =~= lit_boot());
    v
}

/// `.yml`.
pub open spec fn lit_yml_ext() -> Seq<u8> {
    seq![46u8, 121u8, 109u8, 108u8]
}

/// `.yml`, as bytes.
pub fn yml_ext() -> (v: Vec<u8>)
    ensures
        v@ == lit_yml_ext(),
{
    let a: [u8; 4] = [46u8, 121u8, 109u8, 108u8];
    let v = slice_to_vec(a.as_slice());
    assert(v@ =~= lit_yml_ext());
    v
}

/// `.img`.
pub open spec fn lit_img_ext() -> Seq<u8> {
    seq![46u8, 105u8, 109u8, 103u8]
}

/// `.img`, as bytes.
pub fn img_ext() -> (v: Vec<u8>)
    ensures
        v@ == lit_img_ext(),
{
    let a: [u8; 4] = [46u8, 105u8, 109u8, 103u8];
    let v = slice_to_vec(a.as_slice());
    assert(v@ =~= lit_img_ext());
    v
}

/// `p1`.
pub open spec fn lit_p1() -> Seq<u8> {
    seq![112u8, 49u8]
}

/// `p1`, as bytes.
pub fn p1() -> (v: Vec<u8>)
    ensures
        v@ == lit_p1(),
{
    let a: [u8; 2] = [112u8, 49u8];
    let v = slice_to_vec(a.as_slice());
    assert(v@ =~= lit_p1());
    v
}

/// `p2`.
pub open spec fn lit_p2() -> Seq<u8> {
    seq![112u8, 50u8]
}

/// `p2`, as bytes.
pub fn p2() -> (v: Vec<u8>)
    ensures
        v@ == lit_p2(),
{
    let a: [u8; 2] = [112u8, 50u8];
    let v = slice_to_vec(a.as_slice());
    assert(v@ =~= lit_p2());
    v
}

/// `.`.
pub open spec fn lit_dot() -> Seq<u8> {
    seq![46u8]
}

/// `.`, as bytes.
pub fn dot() -> (v: Vec<u8>)
    ensures
        v@ == lit_dot(),
{
    let a: [u8; 1] = [46u8];
    let v = slice_to_vec(a.as_slice());
    assert(v@ =~= lit_dot());
    v
}

/// `/*.yml`.
pub open spec fn lit_glob_yml() -> Seq<u8> {
    seq![47u8, 42u8, 46u8, 121u8, 109u8, 108u8]
}

/// `/*.yml`, as bytes.
pub fn glob_yml() -> (v: Vec<u8>)
    ensures
        v@ == lit_glob_yml(),
{
    let a: [u8; 6] = [47u8, 42u8, 46u8, 121u8, 109u8, 108u8];
    let v = slice_to_vec(a.as_slice());
    assert(v@ =~= lit_glob_yml());
    v
}

/// `.xz`.
pub open spec fn lit_xz_ext() -> Seq<u8> {
    seq![46u8, 120u8, 122u8]
}

/// `.xz`, as bytes.
pub fn xz_ext() -> (v: Vec<u8>)
    ensures
        v@ == lit_xz_ext(),
{
    let a: [u8; 3] = [46u8, 120u8, 122u8];
    let v = slice_to_vec(a.as_slice());
    assert(v@ =~= lit_xz_ext());
    v
}

/// `sudo`.
pub open spec fn lit_sudo() -> Seq<u8> {
    seq![115u8, 117u8, 100u8, 111u8]
}

/// `sudo`, as bytes.
pub fn sudo() -> (v: Vec<u8>)
    ensures
        v@ == lit_sudo(),
{
    let a: [u8; 4] = [115u8, 117u8, 100u8, 111u8];
    let v = slice_to_vec(a.as_slice());
    assert(v@ =~= lit_sudo());
    v
}

/// `mount`.
pub open spec fn lit_mount() -> Seq<u8> {
    seq![109u8, 111u8, 117u8, 110u8, 116u8]
}

/// `mount`, as bytes.
pub fn mount() -> (v: Vec<u8>)
    ensures
        v@ == lit_mount(),
{
    let a: [u8; 5] = [109u8, 111u8, 117u8, 110u8, 116u8];
    let v = slice_to_vec(a.as_slice());
    assert(v@ =~= lit_mount());
    v
}

/// `umount`.
pub open spec fn lit_umount() -> Seq<u8> {
    seq![117u8, 109u8, 111u8, 117u8, 110u8, 116u8]
}

/// `umount`, as bytes.
pub fn umount() -> (v: Vec<u8>)
    ensures
        v@ == lit_umount(),
{
    let a: [u8; 6] = [117u8, 109u8, 111u8, 117u8, 110u8, 116u8];
    let v = slice_to_vec(a.as_slice());
    assert(v@ =~= lit_umount());
    v
}

/// `sync`.
pub open spec fn lit_sync() -> Seq<u8> {
    seq![115u8, 121u8, 110u8, 99u8]
}

/// `sync`, as bytes.
pub fn sync() -> (v: Vec<u8>)
    ensures
        v@ == lit_sync(),
{
    let a: [u8; 4] = [115u8, 121u8, 110u8, 99u8];
    let v = slice_to_vec(a.as_slice());
    assert(v@ =~= lit_sync());
    v
}

/// `bsdtar`.
pub open spec fn lit_bsdtar() -> Seq<u8> {
    seq![98u8, 115u8, 100u8, 116u8, 97u8, 114u8]
}

/// `bsdtar`, as bytes.
pub fn bsdtar() -> (v: Vec<u8>)
    ensures
        v@ == lit_bsdtar(),
{
    let a: [u8; 6] = [98u8, 115u8, 100u8, 116u8, 97u8, 114u8];
    let v = slice_to_vec(a.as_slice());
    assert(v@ =~= lit_bsdtar());
    v
}

/// `-xpf`.
pub open spec fn lit_xpf() -> Seq<u8> {
    seq![45u8, 120u8, 112u8, 102u8]
}

/// `-xpf`, as bytes.
pub fn xpf() -> (v: Vec<u8>)
    ensures
        v@ == lit_xpf(),
{
    let a: [u8; 4] = [45u8, 120u8, 112u8, 102u8];
    let v = slice_to_vec(a.as_slice());
    assert(v@ =~= lit_xpf());
    v
}

/// `-C`.
pub open spec fn lit_dash_c() -> Seq<u8> {
    seq![45u8, 67u8]
}

/// `-C`, as bytes.
pub fn dash_c() -> (v: Vec<u8>)
    ensures
        v@ == lit_dash_c(),
{
    let a: [u8; 2] = [45u8, 67u8];
    let v = slice_to_vec(a.as_slice());
    assert(v@ =~= lit_dash_c());
    v
}

/// `cp`.
pub open spec fn lit_cp() -> Seq<u8> {
    seq![99u8, 112u8]
}

/// `cp`, as bytes.
pub fn cp() -> (v: Vec<u8>)
    ensures
        v@ == lit_cp(),
{
    let a: [u8; 2] = [99u8, 112u8];
    let v = slice_to_vec(a.as_slice());
    assert(v@ =~= lit_cp());
    v
}

/// `-a`.
pub open spec fn lit_dash_a() -> Seq<u8> {
    seq![45u8, 97u8]
}

/// `-a`, as bytes.
pub fn dash_a() -> (v: Vec<u8>)
    ensures
        v@ == lit_dash_a(),
{
    let a: [u8; 2] = [45u8, 97u8];
    let v = slice_to_vec(a.as_slice());
    assert(v@ =~= lit_dash_a());
    v
}

/// `xz`.
pub open spec fn lit_xz() -> Seq<u8> {
    seq![120u8, 122u8]
}

/// `xz`, as bytes.
pub fn xz() -> (v: Vec<u8>)
    ensures
        v@ == lit_xz(),
{
    let a: [u8; 2] = [120u8, 122u8];
    let v = slice_to_vec(a.as_slice());
    assert(v@ =~= lit_xz());
    v
}

/// `--keep`.
pub open spec fn lit_keep() -> Seq<u8> {
    seq![45u8, 45u8, 107u8, 101u8, 101u8, 112u8]
}

/// `--keep`, as bytes.
pub fn keep() -> (v: Vec<u8>)
    ensures
        v@ == lit_keep(),
{
    let a: [u8; 6] = [45u8, 45u8, 107u8, 101u8, 101u8, 112u8];
    let v = slice_to_vec(a.as_slice());
    assert(v@ =~= lit_keep());
    v
}

/// `-T`.
pub open spec fn lit_dash_t() -> Seq<u8> {
    seq![45u8, 84u8]
}

/// `-T`, as bytes.
pub fn dash_t() -> (v: Vec<u8>)
    ensures
        v@ == lit_dash_t(),
{
    let a: [u8; 2] = [45u8, 84u8];
    let v = slice_to_vec(a.as_slice());
    assert(v@ =~= lit_dash_t());
    v
}

/// `-`.
pub open spec fn lit_dash() -> Seq<u8> {
    seq![45u8]
}

/// `-`, as bytes.
pub fn dash() -> (v: Vec<u8>)
    ensures
        v@ == lit_dash(),
{
    let a: [u8; 1] = [45u8];
    let v = slice_to_vec(a.as_slice());
    assert(v@ =~= lit_dash());
    v
}

/// `--memlimit-compress=`.
pub open spec fn lit_memlimit() -> Seq<u8> {
    seq![45u8, 45u8, 109u8, 101u8, 109u8, 108u8, 105u8, 109u8, 105u8, 116u8, 45u8, 99u8, 111u8, 109u8, 112u8, 114u8, 101u8, 115u8, 115u8, 61u8]
}

/// `--memlimit-compress=`, as bytes.
pub fn memlimit() -> (v: Vec<u8>)
    ensures
        v@ == lit_memlimit(),
{
    let a: [u8; 20] = [45u8, 45u8, 109u8, 101u8, 109u8, 108u8, 105u8, 109u8, 105u8, 116u8, 45u8, 99u8, 111u8, 109u8, 112u8, 114u8, 101u8, 115u8, 115u8, 61u8];
    let v = slice_to_vec(a.as_slice());
    assert(v@ =~= lit_memlimit());
    v
}

/// `-v`.
pub open spec fn lit_dash_v() -> Seq<u8> {
    seq![45u8, 118u8]
}

/// `-v`, as bytes.
pub fn dash_v() -> (v: Vec<u8>)
    ensures
        v@ == lit_dash_v(),
{
    let a: [u8; 2] = [45u8, 118u8];
    let v = slice_to_vec(a.as_slice());
    assert(v@ =~= lit_dash_v());
    v
}

} // verus!
