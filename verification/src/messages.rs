//! The lines printed about a stored treasury.

use vstd::prelude::*;
use vstd::string::*;
use crate::text::{decimal, decimal_text, framed_number};

verus! {

/// Announces a newly written treasury.
pub fn created_message(name: &str, orbs: u32) -> (r: String)
    ensures
        r@ == "Created a treasury named "@ + name@ + " which contains "@ + decimal(orbs as nat) + " orbs."@,
{
    let mut r = String::from_str("Created a treasury named ");
    r.append(name);
    r.append(" which contains ");
    let d = decimal_text(orbs);
    r.append(d.as_str());
    r.append(" orbs.");
    r
}

/// The orbs of the treasury that was asked for.
pub fn your_orbs_line(orbs: u32) -> (r: String)
    ensures
        r@ == "Your treasury contains "@ + decimal(orbs as nat) + " orbs"@,
{
    framed_number("Your treasury contains ", orbs, " orbs")
}

/// The full-circle potential of the treasury that was asked for.
pub fn your_full_circle_line(heroes: u32) -> (r: String)
    ensures
        r@ == "You can pull "@ + decimal(heroes as nat) + " heroes, presuming you pull full circles"@,
{
    framed_number("You can pull ", heroes, " heroes, presuming you pull full circles")
}

/// The sniped potential of the treasury that was asked for.
pub fn your_snipe_line(heroes: u32) -> (r: String)
    ensures
        r@ == "Presuming you snipe, you can pull "@ + decimal(heroes as nat) + " heroes"@,
{
    framed_number("Presuming you snipe, you can pull ", heroes, " heroes")
}

/// The orbs of a treasury in a listing.
pub fn listed_orbs_line(orbs: u32) -> (r: String)
    ensures
        r@ == "This treasury contains "@ + decimal(orbs as nat) + " orbs"@,
{
    framed_number("This treasury contains ", orbs, " orbs")
}

/// The full-circle potential of a treasury in a listing.
pub fn listed_full_circle_line(heroes: u32) -> (r: String)
    ensures
        r@ == "It has enough orbs to pull "@ + decimal(heroes as nat) + " heroes, if pulling full circles"@,
{
    framed_number("It has enough orbs to pull ", heroes, " heroes, if pulling full circles")
}

/// The sniped potential of a treasury in a listing.
pub fn listed_snipe_line(heroes: u32) -> (r: String)
    ensures
        r@ == "Presuming you snipe, it has enough orbs for "@ + decimal(heroes as nat) + " heroes"@,
{
    framed_number("Presuming you snipe, it has enough orbs for ", heroes, " heroes")
}

/// Opens a sniped projection of `attempts` pulls.
pub fn projection_start_line(attempts: u32) -> (r: String)
    ensures
        r@ == "Beginning summoning projections with "@ + decimal(attempts as nat) + " attempts"@,
{
    framed_number("Beginning summoning projections with ", attempts, " attempts")
}

/// Closes a sniped projection of `attempts` pulls.
pub fn projection_end_line(attempts: u32) -> (r: String)
    ensures
        r@ == "\n... end of summoning projections. The projection presumed "@ + decimal(attempts as nat)
            + " pulls."@,
{
    framed_number("\n... end of summoning projections. The projection presumed ", attempts, " pulls.")
}

} // verus!
