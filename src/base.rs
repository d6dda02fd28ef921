use vstd::prelude::*;

verus! {

/// The static base stylesheet: layout rules for every class the library
/// emits, and the pre-built rules of the common border widths, font sizes
/// and paddings.
pub const BASE_CSS: &'static str = "
@media screen and (-ms-high-contrast: active), (-ms-high-contrast: none) {
    s.r > .s { flex-basis: auto !important; }
    .s.r > .s.ctr { flex-basis: auto !important; }
}
input[type=\"search\"],
input[type=\"search\"]::-webkit-search-decoration,
input[type=\"search\"]::-webkit-search-cancel-button,
input[type=\"search\"]::-webkit-search-results-button,
input[type=\"search\"]::-webkit-search-results-decoration {
  -webkit-appearance:none;
}
input[type=range] {
  -webkit-appearance: none; 
  background: transparent;
  position:absolute;
  left:0;
  top:0;
  z-index:10;
  width: 100%;
  outline: dashed 1px;
  height: 100%;
  opacity: 0;
}
input[type=range]::-moz-range-track {
    background: transparent;
    cursor: pointer;
}
input[type=range]::-ms-track {
    background: transparent;
    cursor: pointer;
}
input[type=range]::-webkit-slider-runnable-track {
    background: transparent;
    cursor: pointer;
}
input[type=range]::-webkit-slider-thumb {
    -webkit-appearance: none;
    opacity: 0.5;
    width: 80px;
    height: 80px;
    background-color: black;
    border:none;
    border-radius: 5px;
}
input[type=range]::-moz-range-thumb {
    opacity: 0.5;
    width: 80px;
    height: 80px;
    background-color: black;
    border:none;
    border-radius: 5px;
}
input[type=range]::-ms-thumb {
    opacity: 0.5;
    width: 80px;
    height: 80px;
    background-color: black;
    border:none;
    border-radius: 5px;
}
input[type=range][orient=vertical]{
    writing-mode: bt-lr; /* IE */
    -webkit-appearance: slider-vertical;  /* WebKit */
}
.explain {
    border: 6px solid rgb(174, 121, 15) !important;
}
.explain > .s {
    border: 4px dashed rgb(0, 151, 167) !important;
}
.ctr {
    border: none !important;
}
.explain > .ctr > .s {
    border: 4px dashed rgb(0, 151, 167) !important;
}

.v-frac-off {font-feature-settings:\"frac\" 0;}.v-frac {font-feature-settings:\"frac\";}.v-afrc-off {font-feature-settings:\"afrc\" 0;}.v-afrc {font-feature-settings:\"afrc\";}.v-tnum-off {font-feature-settings:\"tnum\" 0;}.v-tnum {font-feature-settings:\"tnum\";}.v-ordn-off {font-feature-settings:\"ordn\" 0;}.v-ordn {font-feature-settings:\"ordn\";}.v-dlig-off {font-feature-settings:\"dlig\" 0;}.v-dlig {font-feature-settings:\"dlig\";}.v-liga-off {font-feature-settings:\"liga\" 0;}.v-liga {font-feature-settings:\"liga\";}.v-onum-off {font-feature-settings:\"onum\" 0;}.v-onum {font-feature-settings:\"onum\";}.v-zero-off {font-feature-settings:\"zero\" 0;}.v-zero {font-feature-settings:\"zero\";}.v-smcp-off {font-variant:normal;}.v-smcp {font-variant:small-caps;}.p-24 {padding:24px;}.p-23 {padding:23px;}.p-22 {padding:22px;}.p-21 {padding:21px;}.p-20 {padding:20px;}.p-19 {padding:19px;}.p-18 {padding:18px;}.p-17 {padding:17px;}.p-16 {padding:16px;}.p-15 {padding:15px;}.p-14 {padding:14px;}.p-13 {padding:13px;}.p-12 {padding:12px;}.p-11 {padding:11px;}.p-10 {padding:10px;}.p-9 {padding:9px;}.p-8 {padding:8px;}.p-7 {padding:7px;}.p-6 {padding:6px;}.p-5 {padding:5px;}.p-4 {padding:4px;}.p-3 {padding:3px;}.p-2 {padding:2px;}.p-1 {padding:1px;}.p-0 {padding:0px;}.font-size-32 {font-size:32px;}.font-size-31 {font-size:31px;}.font-size-30 {font-size:30px;}.font-size-29 {font-size:29px;}.font-size-28 {font-size:28px;}.font-size-27 {font-size:27px;}.font-size-26 {font-size:26px;}.font-size-25 {font-size:25px;}.font-size-24 {font-size:24px;}.font-size-23 {font-size:23px;}.font-size-22 {font-size:22px;}.font-size-21 {font-size:21px;}.font-size-20 {font-size:20px;}.font-size-19 {font-size:19px;}.font-size-18 {font-size:18px;}.font-size-17 {font-size:17px;}.font-size-16 {font-size:16px;}.font-size-15 {font-size:15px;}.font-size-14 {font-size:14px;}.font-size-13 {font-size:13px;}.font-size-12 {font-size:12px;}.font-size-11 {font-size:11px;}.font-size-10 {font-size:10px;}.font-size-9 {font-size:9px;}.font-size-8 {font-size:8px;}.border-6 {border-width:6px;}.border-5 {border-width:5px;}.border-4 {border-width:4px;}.border-3 {border-width:3px;}.border-2 {border-width:2px;}.border-1 {border-width:1px;}.border-0 {border-width:0px;}.s {font-style:inherit;text-decoration:none;font-weight:inherit;line-height:1;font-family:inherit;color:inherit;font-size:inherit;border-style:solid;border-width:0;padding:0;margin:0;box-sizing:border-box;font-feature-settings:inherit;resize:none;flex-basis:auto;flex-direction:row;display:flex;flex-shrink:0;border:none;position:relative;}.s.modal {pointer-events:none;height:100%;width:100%;top:0;left:0;position:fixed;}
.s.tl {text-align:left;}
.s.tr {text-align:right;}
.s.tc {text-align:center;}
.s.tja {text-align:justify-all;}
.s.tj {text-align:justify;}
.s.tun {font-style:normal;}
.s.u.sk {text-decoration-skip:ink;text-decoration-skip-ink:auto;text-decoration:line-througunderline;}
.s.u {text-decoration-skip:ink;text-decoration-skip-ink:auto;text-decoration:underline;}
.s.sk {text-decoration:line-through;}
.s.i {font-style:italic;}
.sw9 {font-weight:900;}
.s.w8 {font-weight:800;}
.s.w7 {font-weight:700;}
.s.w6 {font-weight:600;}
.s.w5 {font-weight:500;}
.s.w4 {font-weight:400;}
.s.w3 {font-weight:300;}
.s.w2 {font-weight:200;}
.s.w1 {font-weight:100;}
.s.hidden {display:none;}
.s.p {overflow-wrap:break-word;white-space:normal;display:block;}



.s.p > sal {float:left;}

.s.p > sar {float:right;}





.s.p > .g {display:inline-grid;}
.s.p > .c {display:inline-flex;}
.s.p > .r {display:inline;}
.s.p .e {white-space:normal;display:inline;}.s.p .e > .txt {white-space:normal;display:inline;}
.s.p .e.ol {display:flex;}
.s.p .e.or {display:flex;}
.s.p .e.b {display:flex;}
.s.p .e.a {display:flex;}
.s.p .e.bh {display:flex;}
.s.p .e.fr {display:flex;}
.s.p .e.we {display:inline-block;}
.s.p .p {display:inline;}.s.p .p::before {content:none;}
.s.p .p::after {content:none;}
.s.p .txt {white-space:normal;display:inline;}
.s.phbh {z-index:0;}.s.phbh > .bh {z-index:-1;}
.simlp {cursor:text;white-space:pre-wrap !important;}.simlp > .imlf {color:transparent;white-space:pre-wrap !important;}
.s.implw.e {flex-basis:auto;}
.s.iml {background-color:transparent;width:100%;height:100%;white-space:pre-wrap !important;}
.s.pg {display:block;}



.s.pg > sal {float:left;}.s.pg > sal::after {clear:both;display:table;content:\"\";}

.s.pg > sar {float:right;}.s.pg > sar::after {clear:both;display:table;content:\"\";}





.s.pg > .s.ar:first-child + .s {margin:0 !important;}
.s.pg > .s.al:first-child + .s {margin:0 !important;}
.s.pg > .s:first-child {margin:0 !important;}
.s.g {display:-ms-grid;}.s.g > scy {justify-content:center;}
.s.g > scx {align-items:center;}
.s.g > sal {align-items:flex-start;}
.s.g > sar {align-items:flex-end;}
.s.g > sab {justify-content:flex-end;}
.s.g > sat {justify-content:flex-start;}
@supports (display:grid) {.s.g {display:grid;
}}}
.s.g > .gp > .s {width:100%;}
.s.c {flex-direction:column;display:flex;}.s.c.se {justify-content:space-between;}
.s.c > .ctr {align-self:stretch !important;width:100%;flex-basis:auto;flex-grow:0;}

.s.cccy {justify-content:center;}
.s.c > scx {align-self:center;}
.s.cccx {align-items:center;}
.s.c > sal {align-self:flex-start;}
.s.ccl {align-items:flex-start;}
.s.c > sar {align-self:flex-end;}
.s.ccr {align-items:flex-end;}
.s.c > sab {margin-top:auto;}
.s.ccb {justify-content:flex-end;}
.s.c > sat {margin-bottom:auto;}
.s.cct {justify-content:flex-start;}
.s.c > u:first-of-type.acb ~ s.accy {flex-grow:0;}
.s.c > s:last-of-type.accy ~ u {flex-grow:0;}
.s.c > s:only-of-type.accy {flex-grow:1;}.s.c > s:only-of-type.accy > cy {margin-bottom:auto !important;margin-top:auto !important;}
.s.c > s:last-of-type.accy {flex-grow:1;}.s.c > s:last-of-type.accy > .cy {margin-top:0 !important;margin-bottom:auto !important;}
.s.c > s:first-of-type.accy {flex-grow:1;}.s.c > s:first-of-type.accy > .cy {margin-bottom:0 !important;margin-top:auto !important;}
.s.c > u:first-of-type.acb {flex-grow:1;}
.s.c > .wc {align-self:flex-start;}
.s.c > .wfp {width:100%;}
.s.c > .wf {width:100%;}
.s.c > .hf {flex-grow:100000;}
.s.c > .s {min-height:min-content;flex-basis:0px;}.s.c > .she {flex-basis:auto;}
.slbl {align-items:baseline;}
.ssev {justify-content:space-between;}
.s > scy {align-self:center;}
.sccy {align-items:center;}

.sccx {justify-content:center;}

.scl {justify-content:flex-start;}

.scr {justify-content:flex-end;}
.s > sab {align-self:flex-end;}
.scb {align-items:flex-end;}
.s > sat {align-self:flex-start;}
.sct {align-items:flex-start;}
.s.r {flex-direction:row;display:flex;}.s.r > .hfp {align-self:stretch !important;}
.s.r > .hf {align-self:stretch !important;}
.s.r > .s {flex-basis:0%;}.s.r > .s.lnk {flex-basis:auto;}
.s.r > .s.we {flex-basis:auto;}
.sit {text-align:inherit;background:transparent;line-height:1.05;}
.s.txt {display:inline-block;white-space:pre;}
.s.bs {border-style:solid;}
.s.bdt {border-style:dotted;}
.s.bd {border-style:dashed;}
.s.bn {border-width:0;}
.s.wc {width:auto;}
.s.cpy {overflow-y:hidden;}
.s.cpx {overflow-x:hidden;}
.s.cp {overflow:hidden;}
.s.sby {overflow-y:auto;}.s.sby.e {flex-shrink:1;}
.s.sby.c {flex-shrink:1;}
.s.sbx {overflow-x:auto;}.s.sbx.r {flex-shrink:1;}
.s.sb {flex-shrink:1;overflow:auto;}
.s.ts {transition:transform 160ms, opacity 160ms, filter 160ms, background-color 160ms, color 160ms, font-size 160ms;}
.s.atv.oq:active {opacity:1;}
.s.atv.clr:active {opacity:0;}
.s.fcs.oq:focus {opacity:1;}
.s.fcs.clr:focus {opacity:0;}
.s.hv.oq:hover {opacity:1;}
.s.hv.clr:hover {opacity:0;}
.s.oq {opacity:1;}
.s.clr {opacity:0;}
.s.cpe {pointer-events:auto !important;}
.s.ppe {pointer-events:none !important;}
.s.ctxt {cursor:text;}
.s.cptr {cursor:pointer;}
.s.notxt {user-select:none;-ms-user-select:none;-webkit-user-select:none;-moz-user-select:none;}
.s.wrp {flex-wrap:wrap;}.nb {flex-basis:auto;flex-direction:row;display:flex;border:none;position:relative;}.nb.bh {pointer-events:none;z-index:0;margin:0 !important;top:0;left:0;height:100%;width:100%;position:absolute;}.nb.bh > * {pointer-events:auto;}
.nb.fr {pointer-events:none;margin:0 !important;top:0;left:0;height:100%;width:100%;position:absolute;}.nb.fr > * {pointer-events:auto;}
.nb.ol {pointer-events:none;z-index:20;margin:0 !important;height:100%;top:0;right:100%;position:absolute;}.nb.ol > * {pointer-events:auto;}
.nb.or {pointer-events:none;z-index:20;margin:0 !important;height:100%;top:0;left:100%;position:absolute;}.nb.or > * {pointer-events:auto;}
.nb.b {pointer-events:none;margin:0 !important;z-index:20;width:100%;height:0;left:0;bottom:0;position:absolute;}.nb.b > .hf {height:auto;}
.nb.b > * {pointer-events:auto;}
.nb.a {pointer-events:none;margin:0 !important;z-index:20;width:100%;left:0;bottom:100%;position:absolute;}.nb.a > * {pointer-events:auto;}
.nb.a > .wf {width:100%;}
.nb.a > .hf {height:auto;}.ui {z-index:0;min-height:100%;height:auto;width:100%;}.ui > .fr.nb {z-index:20;position:fixed;}
.ui.s.e.hf {height:100%;}.ui.s.e.hf > .hf {height:100%;}.s:focus {outline:none;}.s.e.ic {display:block;}.s.e.ic.wf > img {object-fit:cover;max-width:100%;}
.s.e.ic.hf > img {object-fit:cover;max-height:100%;}html,body {margin:0;padding:0;height:100%;}";

/// The static base stylesheet text.
pub fn rules() -> (r: String)
    ensures
        r@ == BASE_CSS@,
{
    String::from_str(BASE_CSS)
}

} // verus!
