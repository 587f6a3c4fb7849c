//! Differential-drive simulation helpers that involve no floating point: where the robot
//! model files live, and how held keys map to a drive direction.

use vstd::prelude::*;
use vstd::string::*;

verus! {

/// `base` followed by the relative path `rel`, with one `/` between them unless `base` is
/// empty or already ends in `/` (how a relative component is pushed onto a path).
pub open spec fn joined_path(base: Seq<char>, rel: Seq<char>) -> Seq<char> {
    if base.len() == 0 || base.last() == '/' {
        base + rel
    } else {
        base + seq!['/'] + rel
    }
}

/// Joining keeps `base` and `rel` whole and puts exactly one `/` between them when `base` is
/// non-empty and does not already end in `/`, and nothing between them otherwise.
pub proof fn law_join_path_separator(base: Seq<char>, rel: Seq<char>)
    ensures
        joined_path(base, rel).subrange(0, base.len() as int) == base,
        joined_path(base, rel).subrange(
            joined_path(base, rel).len() - rel.len(),
            joined_path(base, rel).len() as int,
        ) == rel,
        base.len() > 0 && base.last() != '/' ==> joined_path(base, rel).len() == base.len() + 1
            + rel.len() && joined_path(base, rel)[base.len() as int] == '/',
        base.len() == 0 || base.last() == '/' ==> joined_path(base, rel).len() == base.len()
            + rel.len(),
{
    let j = joined_path(base, rel);
    assert(j.subrange(0, base.len() as int) =~= base);
    assert(j.subrange(j.len() - rel.len(), j.len() as int) =~= rel);
}

/// Append the relative path `rel` to `base`.
pub fn join_path(base: &str, rel: &str) -> (r: String)
    ensures
        r@ == joined_path(base@, rel@),
{
    let len = base.unicode_len();
    if len == 0 || base.get_char(len - 1) == '/' {
        base.to_owned().concat(rel)
    } else {
        let slash = "/";
        proof {
            reveal_strlit("/");
        }
        base.to_owned().concat(slash).concat(rel)
    }
}

/// Location of the robot model relative to the simulation package.
pub open spec fn robot_file() -> Seq<char> {
    "robots/diff_drive/robot.xml"@
}

/// Location of the scene (office floor plus robot) relative to the simulation package.
pub open spec fn scene_file() -> Seq<char> {
    "robots/diff_drive/scene.xml"@
}

/// Location of the office floor environment relative to the simulation package.
pub open spec fn office_floor_file() -> Seq<char> {
    "robots/diff_drive/environments/office_floor.xml"@
}

/// Path of the robot model under the simulation package directory `package_dir`.
pub fn robot_path(package_dir: &str) -> (r: String)
    ensures
        r@ == joined_path(package_dir@, robot_file()),
{
    join_path(package_dir, "robots/diff_drive/robot.xml")
}

/// Path of the scene under the simulation package directory `package_dir`.
pub fn scene_path(package_dir: &str) -> (r: String)
    ensures
        r@ == joined_path(package_dir@, scene_file()),
{
    join_path(package_dir, "robots/diff_drive/scene.xml")
}

/// Path of the office floor environment under the simulation package directory `package_dir`.
pub fn office_floor_path(package_dir: &str) -> (r: String)
    ensures
        r@ == joined_path(package_dir@, office_floor_file()),
{
    join_path(package_dir, "robots/diff_drive/environments/office_floor.xml")
}

/// Direction of one teleoperation axis from its two keys: `1` when only the positive key is
/// held, `-1` when only the negative key is held, `0` otherwise (none or both).
pub fn drive_axis(positive: bool, negative: bool) -> (r: i8)
    ensures
        r == (if positive && !negative {
            1i8
        } else if negative && !positive {
            -1i8
        } else {
            0i8
        }),
{
    match (positive, negative) {
        (true, false) => 1,
        (false, true) => -1,
        _ => 0,
    }
}

} // verus!
