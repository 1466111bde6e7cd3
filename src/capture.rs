use vstd::prelude::*;
use vstd::string::StringExecFns;

verus! {

/// The directory, under the system's temporary directory, that holds captures.
pub fn scratch_dir_name() -> (r: String)
    ensures
        r@ == "tauri_gemini"@,
{
    String::from_str("tauri_gemini")
}

/// Relies on uuid's `Uuid::new_v4` and its `Display`, which writes the
/// hyphenated lower-case form: 36 characters, random on every call.
#[verifier::external_body]
fn random_uuid() -> (r: String)
    ensures
        r@.len() == 36,
{
    uuid::Uuid::new_v4().to_string()
}

/// A fresh, collision-resistant file name for a captured image: a random UUID
/// followed by ".png".
pub fn artifact_file_name() -> (r: String)
    ensures
        r@.len() == 40,
        r@.subrange(36, 40) == ".png"@,
{
    let mut name = random_uuid();
    name.append(".png");
    proof {
        reveal_strlit(".png");
    }
    assert(name@.subrange(36, 40) =~= ".png"@);
    name
}

/// Whether a raw capture of `len` bytes fills an RGBA image of `width` x `height`
/// exactly, four bytes per pixel.
pub fn buffer_matches(width: u32, height: u32, len: usize) -> (r: bool)
    ensures
        r == (len as int == width as int * height as int * 4),
{
    let w = width as u128;
    let h = height as u128;
    assert(w * h <= 0xffff_ffff * 0xffff_ffff) by (nonlinear_arith)
        requires
            w <= 0xffff_ffff,
            h <= 0xffff_ffff,
    ;
    let pixels = w * h;
    len as u128 == pixels * 4
}

} // verus!
