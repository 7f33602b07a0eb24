pub mod g_cleargeometrymode;
pub mod g_dl;
pub mod g_enddl;
pub mod g_popmtx;
pub mod g_rdppipesync;
pub mod g_setcombine;
pub mod g_setgeometrymode;
pub mod g_setothermode_h;
pub mod g_setothermode_l;
pub mod g_settimg;
pub mod g_spnoop;
pub mod g_texture;
pub mod g_tri2;
pub mod g_vtx;
pub mod unknown;
