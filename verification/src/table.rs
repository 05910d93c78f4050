use vstd::prelude::*;

verus! {

/// The fixed-point scale of the linear-light tables: a linear channel value
/// x in [0, 1] is held as the integer x * LIN_ONE, so LIN_ONE itself is 1.0.
pub const LIN_ONE: u64 = 0x10_0000_0000;

/// The linear-light value of the gamma-encoded byte `b`: the sRGB
/// electro-optical transfer function at b/255, scaled by `LIN_ONE`.
/// (b/255)/12.92 below the low-light knee at 0.04045, else
/// ((b/255 + 0.055)/1.055)^2.4, sampled once and held as a table.
pub closed spec fn s_lin(b: int) -> int {
    if b < 64 { lin_q0(b) } else if b < 128 { lin_q1(b) } else if b < 192 { lin_q2(b) } else { lin_q3(b) }
}

/// The linear-light threshold at which the gamma-encoded output byte becomes
/// `k`: the transfer function at k/256, scaled by `LIN_ONE`.  A linear value
/// x encodes to byte k exactly when s_thresh(k) <= x*LIN_ONE < s_thresh(k+1).
pub closed spec fn s_thresh(k: int) -> int {
    if k < 64 { thr_q0(k) } else if k < 128 { thr_q1(k) } else if k < 192 { thr_q2(k) } else { thr_q3(k) }
}

spec fn lin_q0(b: int) -> int {
    if b <= 0 { 0 } else if b <= 1 { 20858216 } else if b <= 2 { 41716432 } else if b <= 3 { 62574648 } else if b <= 4 { 83432864 } else if b <= 5 { 104291080 } else if b <= 6 { 125149296 } else if b <= 7 { 146007504 } else if b <= 8 { 166865728 } else if b <= 9 { 187723936 } else if b <= 10 { 208582160 } else if b <= 11 { 229972192 } else if b <= 12 { 252647664 } else if b <= 13 { 276576448 } else if b <= 14 { 301777600 } else if b <= 15 { 328269728 } else if b <= 16 { 356071104 } else if b <= 17 { 385199584 } else if b <= 18 { 415672640 } else if b <= 19 { 447507456 } else if b <= 20 { 480720928 } else if b <= 21 { 515329568 } else if b <= 22 { 551349632 } else if b <= 23 { 588797120 } else if b <= 24 { 627687744 } else if b <= 25 { 668036992 } else if b <= 26 { 709860032 } else if b <= 27 { 753171904 } else if b <= 28 { 797987392 } else if b <= 29 { 844321024 } else if b <= 30 { 892187200 } else if b <= 31 { 941600000 } else if b <= 32 { 992573376 } else if b <= 33 { 1045121152 } else if b <= 34 { 1099256960 } else if b <= 35 { 1154994048 } else if b <= 36 { 1212345856 } else if b <= 37 { 1271325440 } else if b <= 38 { 1331945728 } else if b <= 39 { 1394219392 } else if b <= 40 { 1458159232 } else if b <= 41 { 1523777792 } else if b <= 42 { 1591087232 } else if b <= 43 { 1660099840 } else if b <= 44 { 1730827776 } else if b <= 45 { 1803283072 } else if b <= 46 { 1877477376 } else if b <= 47 { 1953422592 } else if b <= 48 { 2031130240 } else if b <= 49 { 2110611840 } else if b <= 50 { 2191878656 } else if b <= 51 { 2274942208 } else if b <= 52 { 2359813632 } else if b <= 53 { 2446503680 } else if b <= 54 { 2535023616 } else if b <= 55 { 2625384448 } else if b <= 56 { 2717596672 } else if b <= 57 { 2811671040 } else if b <= 58 { 2907618048 } else if b <= 59 { 3005448448 } else if b <= 60 { 3105172224 } else if b <= 61 { 3206800384 } else if b <= 62 { 3310342656 } else { 3415809280 }
}

spec fn lin_q1(b: int) -> int {
    if b <= 64 { 3523210240 } else if b <= 65 { 3632556032 } else if b <= 66 { 3743856128 } else if b <= 67 { 3857120512 } else if b <= 68 { 3972358912 } else if b <= 69 { 4089581056 } else if b <= 70 { 4208796672 } else if b <= 71 { 4330015232 } else if b <= 72 { 4453246464 } else if b <= 73 { 4578499584 } else if b <= 74 { 4705783808 } else if b <= 75 { 4835108864 } else if b <= 76 { 4966483968 } else if b <= 77 { 5099917824 } else if b <= 78 { 5235419648 } else if b <= 79 { 5372998656 } else if b <= 80 { 5512664064 } else if b <= 81 { 5654424576 } else if b <= 82 { 5798288896 } else if b <= 83 { 5944266240 } else if b <= 84 { 6092365312 } else if b <= 85 { 6242594816 } else if b <= 86 { 6394963456 } else if b <= 87 { 6549479424 } else if b <= 88 { 6706151424 } else if b <= 89 { 6864988160 } else if b <= 90 { 7025998336 } else if b <= 91 { 7189190144 } else if b <= 92 { 7354571776 } else if b <= 93 { 7522151424 } else if b <= 94 { 7691937792 } else if b <= 95 { 7863939072 } else if b <= 96 { 8038162944 } else if b <= 97 { 8214618112 } else if b <= 98 { 8393312768 } else if b <= 99 { 8574254080 } else if b <= 100 { 8757450752 } else if b <= 101 { 8942910464 } else if b <= 102 { 9130641408 } else if b <= 103 { 9320651776 } else if b <= 104 { 9512947712 } else if b <= 105 { 9707539456 } else if b <= 106 { 9904433152 } else if b <= 107 { 10103636992 } else if b <= 108 { 10305158144 } else if b <= 109 { 10509004800 } else if b <= 110 { 10715185152 } else if b <= 111 { 10923705344 } else if b <= 112 { 11134573568 } else if b <= 113 { 11347798016 } else if b <= 114 { 11563384832 } else if b <= 115 { 11781343232 } else if b <= 116 { 12001678336 } else if b <= 117 { 12224399360 } else if b <= 118 { 12449512448 } else if b <= 119 { 12677024768 } else if b <= 120 { 12906945536 } else if b <= 121 { 13139279872 } else if b <= 122 { 13374035968 } else if b <= 123 { 13611219968 } else if b <= 124 { 13850840064 } else if b <= 125 { 14092903424 } else if b <= 126 { 14337416192 } else { 14584386560 }
}

spec fn lin_q2(b: int) -> int {
    if b <= 128 { 14833820672 } else if b <= 129 { 15085725696 } else if b <= 130 { 15340108800 } else if b <= 131 { 15596976128 } else if b <= 132 { 15856335872 } else if b <= 133 { 16118193152 } else if b <= 134 { 16382556160 } else if b <= 135 { 16649432064 } else if b <= 136 { 16918825984 } else if b <= 137 { 17190746112 } else if b <= 138 { 17465198592 } else if b <= 139 { 17742190592 } else if b <= 140 { 18021728256 } else if b <= 141 { 18303817728 } else if b <= 142 { 18588467200 } else if b <= 143 { 18875680768 } else if b <= 144 { 19165468672 } else if b <= 145 { 19457832960 } else if b <= 146 { 19752783872 } else if b <= 147 { 20050325504 } else if b <= 148 { 20350466048 } else if b <= 149 { 20653211648 } else if b <= 150 { 20958568448 } else if b <= 151 { 21266542592 } else if b <= 152 { 21577140224 } else if b <= 153 { 21890367488 } else if b <= 154 { 22206232576 } else if b <= 155 { 22524739584 } else if b <= 156 { 22845894656 } else if b <= 157 { 23169708032 } else if b <= 158 { 23496179712 } else if b <= 159 { 23825321984 } else if b <= 160 { 24157136896 } else if b <= 161 { 24491630592 } else if b <= 162 { 24828813312 } else if b <= 163 { 25168687104 } else if b <= 164 { 25511260160 } else if b <= 165 { 25856536576 } else if b <= 166 { 26204524544 } else if b <= 167 { 26555228160 } else if b <= 168 { 26908655616 } else if b <= 169 { 27264811008 } else if b <= 170 { 27623702528 } else if b <= 171 { 27985334272 } else if b <= 172 { 28349712384 } else if b <= 173 { 28716843008 } else if b <= 174 { 29086732288 } else if b <= 175 { 29459386368 } else if b <= 176 { 29834811392 } else if b <= 177 { 30213011456 } else if b <= 178 { 30593992704 } else if b <= 179 { 30977763328 } else if b <= 180 { 31364327424 } else if b <= 181 { 31753689088 } else if b <= 182 { 32145858560 } else if b <= 183 { 32540835840 } else if b <= 184 { 32938631168 } else if b <= 185 { 33339250688 } else if b <= 186 { 33742696448 } else if b <= 187 { 34148974592 } else if b <= 188 { 34558095360 } else if b <= 189 { 34970058752 } else if b <= 190 { 35384872960 } else { 35802542080 }
}

spec fn lin_q3(b: int) -> int {
    if b <= 192 { 36223074304 } else if b <= 193 { 36646473728 } else if b <= 194 { 37072748544 } else if b <= 195 { 37501898752 } else if b <= 196 { 37933936640 } else if b <= 197 { 38368858112 } else if b <= 198 { 38806679552 } else if b <= 199 { 39247400960 } else if b <= 200 { 39691026432 } else if b <= 201 { 40137564160 } else if b <= 202 { 40587018240 } else if b <= 203 { 41039392768 } else if b <= 204 { 41494700032 } else if b <= 205 { 41952935936 } else if b <= 206 { 42414112768 } else if b <= 207 { 42878230528 } else if b <= 208 { 43345301504 } else if b <= 209 { 43815321600 } else if b <= 210 { 44288307200 } else if b <= 211 { 44764254208 } else if b <= 212 { 45243174912 } else if b <= 213 { 45725065216 } else if b <= 214 { 46209941504 } else if b <= 215 { 46697803776 } else if b <= 216 { 47188656128 } else if b <= 217 { 47682502656 } else if b <= 218 { 48179355648 } else if b <= 219 { 48679211008 } else if b <= 220 { 49182081024 } else if b <= 221 { 49687969792 } else if b <= 222 { 50196881408 } else if b <= 223 { 50708815872 } else if b <= 224 { 51223785472 } else if b <= 225 { 51741794304 } else if b <= 226 { 52262846464 } else if b <= 227 { 52786946048 } else if b <= 228 { 53314097152 } else if b <= 229 { 53844307968 } else if b <= 230 { 54377578496 } else if b <= 231 { 54913921024 } else if b <= 232 { 55453335552 } else if b <= 233 { 55995830272 } else if b <= 234 { 56541405184 } else if b <= 235 { 57090072576 } else if b <= 236 { 57641828352 } else if b <= 237 { 58196684800 } else if b <= 238 { 58754646016 } else if b <= 239 { 59315712000 } else if b <= 240 { 59879890944 } else if b <= 241 { 60447191040 } else if b <= 242 { 61017612288 } else if b <= 243 { 61591162880 } else if b <= 244 { 62167842816 } else if b <= 245 { 62747660288 } else if b <= 246 { 63330623488 } else if b <= 247 { 63916732416 } else if b <= 248 { 64505991168 } else if b <= 249 { 65098407936 } else if b <= 250 { 65693986816 } else if b <= 251 { 66292736000 } else if b <= 252 { 66894651392 } else if b <= 253 { 67499745280 } else if b <= 254 { 68108017664 } else { 68719476736 }
}

spec fn thr_q0(b: int) -> int {
    if b <= 0 { 0 } else if b <= 1 { 20776738 } else if b <= 2 { 41553476 } else if b <= 3 { 62330214 } else if b <= 4 { 83106952 } else if b <= 5 { 103883690 } else if b <= 6 { 124660428 } else if b <= 7 { 145437167 } else if b <= 8 { 166213905 } else if b <= 9 { 186990643 } else if b <= 10 { 207767381 } else if b <= 11 { 229025638 } else if b <= 12 { 251556899 } else if b <= 13 { 275330807 } else if b <= 14 { 300366208 } else if b <= 15 { 326681536 } else if b <= 16 { 354294835 } else if b <= 17 { 383223778 } else if b <= 18 { 413485693 } else if b <= 19 { 445097573 } else if b <= 20 { 478076097 } else if b <= 21 { 512437646 } else if b <= 22 { 548198311 } else if b <= 23 { 585373914 } else if b <= 24 { 623980014 } else if b <= 25 { 664031920 } else if b <= 26 { 705544702 } else if b <= 27 { 748533201 } else if b <= 28 { 793012036 } else if b <= 29 { 838995615 } else if b <= 30 { 886498143 } else if b <= 31 { 935533625 } else if b <= 32 { 986115881 } else if b <= 33 { 1038258545 } else if b <= 34 { 1091975075 } else if b <= 35 { 1147278761 } else if b <= 36 { 1204182725 } else if b <= 37 { 1262699931 } else if b <= 38 { 1322843188 } else if b <= 39 { 1384625157 } else if b <= 40 { 1448058353 } else if b <= 41 { 1513155148 } else if b <= 42 { 1579927782 } else if b <= 43 { 1648388358 } else if b <= 44 { 1718548854 } else if b <= 45 { 1790421119 } else if b <= 46 { 1864016883 } else if b <= 47 { 1939347757 } else if b <= 48 { 2016425235 } else if b <= 49 { 2095260700 } else if b <= 50 { 2175865426 } else if b <= 51 { 2258250579 } else if b <= 52 { 2342427222 } else if b <= 53 { 2428406314 } else if b <= 54 { 2516198720 } else if b <= 55 { 2605815202 } else if b <= 56 { 2697266432 } else if b <= 57 { 2790562989 } else if b <= 58 { 2885715360 } else if b <= 59 { 2982733946 } else if b <= 60 { 3081629060 } else if b <= 61 { 3182410931 } else if b <= 62 { 3285089707 } else { 3389675453 }
}

spec fn thr_q1(b: int) -> int {
    if b <= 64 { 3496178158 } else if b <= 65 { 3604607729 } else if b <= 66 { 3714974001 } else if b <= 67 { 3827286734 } else if b <= 68 { 3941555614 } else if b <= 69 { 4057790256 } else if b <= 70 { 4176000205 } else if b <= 71 { 4296194937 } else if b <= 72 { 4418383862 } else if b <= 73 { 4542576323 } else if b <= 74 { 4668781597 } else if b <= 75 { 4797008899 } else if b <= 76 { 4927267380 } else if b <= 77 { 5059566131 } else if b <= 78 { 5193914181 } else if b <= 79 { 5330320502 } else if b <= 80 { 5468794005 } else if b <= 81 { 5609343547 } else if b <= 82 { 5751977924 } else if b <= 83 { 5896705882 } else if b <= 84 { 6043536109 } else if b <= 85 { 6192477240 } else if b <= 86 { 6343537858 } else if b <= 87 { 6496726495 } else if b <= 88 { 6652051630 } else if b <= 89 { 6809521693 } else if b <= 90 { 6969145065 } else if b <= 91 { 7130930076 } else if b <= 92 { 7294885012 } else if b <= 93 { 7461018109 } else if b <= 94 { 7629337556 } else if b <= 95 { 7799851499 } else if b <= 96 { 7972568037 } else if b <= 97 { 8147495225 } else if b <= 98 { 8324641074 } else if b <= 99 { 8504013552 } else if b <= 100 { 8685620584 } else if b <= 101 { 8869470054 } else if b <= 102 { 9055569805 } else if b <= 103 { 9243927636 } else if b <= 104 { 9434551311 } else if b <= 105 { 9627448550 } else if b <= 106 { 9822627035 } else if b <= 107 { 10020094410 } else if b <= 108 { 10219858282 } else if b <= 109 { 10421926217 } else if b <= 110 { 10626305747 } else if b <= 111 { 10833004367 } else if b <= 112 { 11042029533 } else if b <= 113 { 11253388670 } else if b <= 114 { 11467089163 } else if b <= 115 { 11683138367 } else if b <= 116 { 11901543597 } else if b <= 117 { 12122312139 } else if b <= 118 { 12345451244 } else if b <= 119 { 12570968128 } else if b <= 120 { 12798869977 } else if b <= 121 { 13029163943 } else if b <= 122 { 13261857146 } else if b <= 123 { 13496956676 } else if b <= 124 { 13734469591 } else if b <= 125 { 13974402916 } else if b <= 126 { 14216763649 } else { 14461558756 }
}

spec fn thr_q2(b: int) -> int {
    if b <= 128 { 14708795174 } else if b <= 129 { 14958479810 } else if b <= 130 { 15210619541 } else if b <= 131 { 15465221217 } else if b <= 132 { 15722291660 } else if b <= 133 { 15981837661 } else if b <= 134 { 16243865985 } else if b <= 135 { 16508383370 } else if b <= 136 { 16775396525 } else if b <= 137 { 17044912134 } else if b <= 138 { 17316936854 } else if b <= 139 { 17591477313 } else if b <= 140 { 17868540116 } else if b <= 141 { 18148131841 } else if b <= 142 { 18430259041 } else if b <= 143 { 18714928243 } else if b <= 144 { 19002145948 } else if b <= 145 { 19291918635 } else if b <= 146 { 19584252756 } else if b <= 147 { 19879154740 } else if b <= 148 { 20176630990 } else if b <= 149 { 20476687889 } else if b <= 150 { 20779331792 } else if b <= 151 { 21084569035 } else if b <= 152 { 21392405926 } else if b <= 153 { 21702848755 } else if b <= 154 { 22015903785 } else if b <= 155 { 22331577261 } else if b <= 156 { 22649875401 } else if b <= 157 { 22970804405 } else if b <= 158 { 23294370449 } else if b <= 159 { 23620579687 } else if b <= 160 { 23949438254 } else if b <= 161 { 24280952261 } else if b <= 162 { 24615127800 } else if b <= 163 { 24951970941 } else if b <= 164 { 25291487733 } else if b <= 165 { 25633684207 } else if b <= 166 { 25978566370 } else if b <= 167 { 26326140212 } else if b <= 168 { 26676411702 } else if b <= 169 { 27029386789 } else if b <= 170 { 27385071402 } else if b <= 171 { 27743471452 } else if b <= 172 { 28104592830 } else if b <= 173 { 28468441407 } else if b <= 174 { 28835023037 } else if b <= 175 { 29204343554 } else if b <= 176 { 29576408773 } else if b <= 177 { 29951224493 } else if b <= 178 { 30328796491 } else if b <= 179 { 30709130529 } else if b <= 180 { 31092232349 } else if b <= 181 { 31478107678 } else if b <= 182 { 31866762221 } else if b <= 183 { 32258201670 } else if b <= 184 { 32652431696 } else if b <= 185 { 33049457955 } else if b <= 186 { 33449286085 } else if b <= 187 { 33851921707 } else if b <= 188 { 34257370426 } else if b <= 189 { 34665637829 } else if b <= 190 { 35076729487 } else { 35490650955 }
}

spec fn thr_q3(b: int) -> int {
    if b <= 192 { 35907407772 } else if b <= 193 { 36327005459 } else if b <= 194 { 36749449523 } else if b <= 195 { 37174745453 } else if b <= 196 { 37602898725 } else if b <= 197 { 38033914796 } else if b <= 198 { 38467799111 } else if b <= 199 { 38904557096 } else if b <= 200 { 39344194164 } else if b <= 201 { 39786715712 } else if b <= 202 { 40232127122 } else if b <= 203 { 40680433762 } else if b <= 204 { 41131640983 } else if b <= 205 { 41585754122 } else if b <= 206 { 42042778503 } else if b <= 207 { 42502719433 } else if b <= 208 { 42965582207 } else if b <= 209 { 43431372103 } else if b <= 210 { 43900094387 } else if b <= 211 { 44371754309 } else if b <= 212 { 44846357107 } else if b <= 213 { 45323908003 } else if b <= 214 { 45804412207 } else if b <= 215 { 46287874914 } else if b <= 216 { 46774301306 } else if b <= 217 { 47263696551 } else if b <= 218 { 47756065803 } else if b <= 219 { 48251414204 } else if b <= 220 { 48749746883 } else if b <= 221 { 49251068953 } else if b <= 222 { 49755385518 } else if b <= 223 { 50262701664 } else if b <= 224 { 50773022470 } else if b <= 225 { 51286352997 } else if b <= 226 { 51802698295 } else if b <= 227 { 52322063403 } else if b <= 228 { 52844453346 } else if b <= 229 { 53369873136 } else if b <= 230 { 53898327773 } else if b <= 231 { 54429822245 } else if b <= 232 { 54964361528 } else if b <= 233 { 55501950586 } else if b <= 234 { 56042594368 } else if b <= 235 { 56586297816 } else if b <= 236 { 57133065856 } else if b <= 237 { 57682903404 } else if b <= 238 { 58235815363 } else if b <= 239 { 58791806626 } else if b <= 240 { 59350882073 } else if b <= 241 { 59913046573 } else if b <= 242 { 60478304984 } else if b <= 243 { 61046662151 } else if b <= 244 { 61618122909 } else if b <= 245 { 62192692081 } else if b <= 246 { 62770374480 } else if b <= 247 { 63351174907 } else if b <= 248 { 63935098151 } else if b <= 249 { 64522148992 } else if b <= 250 { 65112332197 } else if b <= 251 { 65705652524 } else if b <= 252 { 66302114719 } else if b <= 253 { 66901723518 } else if b <= 254 { 67504483646 } else { 68110399818 }
}

/// The table value of `s_lin` for the byte `b`.
pub fn lin_of(b: u8) -> (r: u64)
    ensures
        r == s_lin(b as int),
        r <= LIN_ONE,
{
    proof {
        lemma_lin_range();
    }
    if b < 64 { lin_e0(b) } else if b < 128 { lin_e1(b) } else if b < 192 { lin_e2(b) } else { lin_e3(b) }
}

/// The table value of `s_thresh` for the byte `k`.
pub fn thresh_of(k: u8) -> (r: u64)
    ensures
        r == s_thresh(k as int),
        r <= LIN_ONE,
{
    proof {
        lemma_thresh_range();
    }
    if k < 64 { thr_e0(k) } else if k < 128 { thr_e1(k) } else if k < 192 { thr_e2(k) } else { thr_e3(k) }
}

fn lin_e0(b: u8) -> (r: u64)
    requires
        0 <= b < 64,
    ensures
        r == lin_q0(b as int),
{
    if b <= 0 { 0 } else if b <= 1 { 20858216 } else if b <= 2 { 41716432 } else if b <= 3 { 62574648 } else if b <= 4 { 83432864 } else if b <= 5 { 104291080 } else if b <= 6 { 125149296 } else if b <= 7 { 146007504 } else if b <= 8 { 166865728 } else if b <= 9 { 187723936 } else if b <= 10 { 208582160 } else if b <= 11 { 229972192 } else if b <= 12 { 252647664 } else if b <= 13 { 276576448 } else if b <= 14 { 301777600 } else if b <= 15 { 328269728 } else if b <= 16 { 356071104 } else if b <= 17 { 385199584 } else if b <= 18 { 415672640 } else if b <= 19 { 447507456 } else if b <= 20 { 480720928 } else if b <= 21 { 515329568 } else if b <= 22 { 551349632 } else if b <= 23 { 588797120 } else if b <= 24 { 627687744 } else if b <= 25 { 668036992 } else if b <= 26 { 709860032 } else if b <= 27 { 753171904 } else if b <= 28 { 797987392 } else if b <= 29 { 844321024 } else if b <= 30 { 892187200 } else if b <= 31 { 941600000 } else if b <= 32 { 992573376 } else if b <= 33 { 1045121152 } else if b <= 34 { 1099256960 } else if b <= 35 { 1154994048 } else if b <= 36 { 1212345856 } else if b <= 37 { 1271325440 } else if b <= 38 { 1331945728 } else if b <= 39 { 1394219392 } else if b <= 40 { 1458159232 } else if b <= 41 { 1523777792 } else if b <= 42 { 1591087232 } else if b <= 43 { 1660099840 } else if b <= 44 { 1730827776 } else if b <= 45 { 1803283072 } else if b <= 46 { 1877477376 } else if b <= 47 { 1953422592 } else if b <= 48 { 2031130240 } else if b <= 49 { 2110611840 } else if b <= 50 { 2191878656 } else if b <= 51 { 2274942208 } else if b <= 52 { 2359813632 } else if b <= 53 { 2446503680 } else if b <= 54 { 2535023616 } else if b <= 55 { 2625384448 } else if b <= 56 { 2717596672 } else if b <= 57 { 2811671040 } else if b <= 58 { 2907618048 } else if b <= 59 { 3005448448 } else if b <= 60 { 3105172224 } else if b <= 61 { 3206800384 } else if b <= 62 { 3310342656 } else { 3415809280 }
}

fn lin_e1(b: u8) -> (r: u64)
    requires
        64 <= b < 128,
    ensures
        r == lin_q1(b as int),
{
    if b <= 64 { 3523210240 } else if b <= 65 { 3632556032 } else if b <= 66 { 3743856128 } else if b <= 67 { 3857120512 } else if b <= 68 { 3972358912 } else if b <= 69 { 4089581056 } else if b <= 70 { 4208796672 } else if b <= 71 { 4330015232 } else if b <= 72 { 4453246464 } else if b <= 73 { 4578499584 } else if b <= 74 { 4705783808 } else if b <= 75 { 4835108864 } else if b <= 76 { 4966483968 } else if b <= 77 { 5099917824 } else if b <= 78 { 5235419648 } else if b <= 79 { 5372998656 } else if b <= 80 { 5512664064 } else if b <= 81 { 5654424576 } else if b <= 82 { 5798288896 } else if b <= 83 { 5944266240 } else if b <= 84 { 6092365312 } else if b <= 85 { 6242594816 } else if b <= 86 { 6394963456 } else if b <= 87 { 6549479424 } else if b <= 88 { 6706151424 } else if b <= 89 { 6864988160 } else if b <= 90 { 7025998336 } else if b <= 91 { 7189190144 } else if b <= 92 { 7354571776 } else if b <= 93 { 7522151424 } else if b <= 94 { 7691937792 } else if b <= 95 { 7863939072 } else if b <= 96 { 8038162944 } else if b <= 97 { 8214618112 } else if b <= 98 { 8393312768 } else if b <= 99 { 8574254080 } else if b <= 100 { 8757450752 } else if b <= 101 { 8942910464 } else if b <= 102 { 9130641408 } else if b <= 103 { 9320651776 } else if b <= 104 { 9512947712 } else if b <= 105 { 9707539456 } else if b <= 106 { 9904433152 } else if b <= 107 { 10103636992 } else if b <= 108 { 10305158144 } else if b <= 109 { 10509004800 } else if b <= 110 { 10715185152 } else if b <= 111 { 10923705344 } else if b <= 112 { 11134573568 } else if b <= 113 { 11347798016 } else if b <= 114 { 11563384832 } else if b <= 115 { 11781343232 } else if b <= 116 { 12001678336 } else if b <= 117 { 12224399360 } else if b <= 118 { 12449512448 } else if b <= 119 { 12677024768 } else if b <= 120 { 12906945536 } else if b <= 121 { 13139279872 } else if b <= 122 { 13374035968 } else if b <= 123 { 13611219968 } else if b <= 124 { 13850840064 } else if b <= 125 { 14092903424 } else if b <= 126 { 14337416192 } else { 14584386560 }
}

fn lin_e2(b: u8) -> (r: u64)
    requires
        128 <= b < 192,
    ensures
        r == lin_q2(b as int),
{
    if b <= 128 { 14833820672 } else if b <= 129 { 15085725696 } else if b <= 130 { 15340108800 } else if b <= 131 { 15596976128 } else if b <= 132 { 15856335872 } else if b <= 133 { 16118193152 } else if b <= 134 { 16382556160 } else if b <= 135 { 16649432064 } else if b <= 136 { 16918825984 } else if b <= 137 { 17190746112 } else if b <= 138 { 17465198592 } else if b <= 139 { 17742190592 } else if b <= 140 { 18021728256 } else if b <= 141 { 18303817728 } else if b <= 142 { 18588467200 } else if b <= 143 { 18875680768 } else if b <= 144 { 19165468672 } else if b <= 145 { 19457832960 } else if b <= 146 { 19752783872 } else if b <= 147 { 20050325504 } else if b <= 148 { 20350466048 } else if b <= 149 { 20653211648 } else if b <= 150 { 20958568448 } else if b <= 151 { 21266542592 } else if b <= 152 { 21577140224 } else if b <= 153 { 21890367488 } else if b <= 154 { 22206232576 } else if b <= 155 { 22524739584 } else if b <= 156 { 22845894656 } else if b <= 157 { 23169708032 } else if b <= 158 { 23496179712 } else if b <= 159 { 23825321984 } else if b <= 160 { 24157136896 } else if b <= 161 { 24491630592 } else if b <= 162 { 24828813312 } else if b <= 163 { 25168687104 } else if b <= 164 { 25511260160 } else if b <= 165 { 25856536576 } else if b <= 166 { 26204524544 } else if b <= 167 { 26555228160 } else if b <= 168 { 26908655616 } else if b <= 169 { 27264811008 } else if b <= 170 { 27623702528 } else if b <= 171 { 27985334272 } else if b <= 172 { 28349712384 } else if b <= 173 { 28716843008 } else if b <= 174 { 29086732288 } else if b <= 175 { 29459386368 } else if b <= 176 { 29834811392 } else if b <= 177 { 30213011456 } else if b <= 178 { 30593992704 } else if b <= 179 { 30977763328 } else if b <= 180 { 31364327424 } else if b <= 181 { 31753689088 } else if b <= 182 { 32145858560 } else if b <= 183 { 32540835840 } else if b <= 184 { 32938631168 } else if b <= 185 { 33339250688 } else if b <= 186 { 33742696448 } else if b <= 187 { 34148974592 } else if b <= 188 { 34558095360 } else if b <= 189 { 34970058752 } else if b <= 190 { 35384872960 } else { 35802542080 }
}

fn lin_e3(b: u8) -> (r: u64)
    requires
        192 <= b < 256,
    ensures
        r == lin_q3(b as int),
{
    if b <= 192 { 36223074304 } else if b <= 193 { 36646473728 } else if b <= 194 { 37072748544 } else if b <= 195 { 37501898752 } else if b <= 196 { 37933936640 } else if b <= 197 { 38368858112 } else if b <= 198 { 38806679552 } else if b <= 199 { 39247400960 } else if b <= 200 { 39691026432 } else if b <= 201 { 40137564160 } else if b <= 202 { 40587018240 } else if b <= 203 { 41039392768 } else if b <= 204 { 41494700032 } else if b <= 205 { 41952935936 } else if b <= 206 { 42414112768 } else if b <= 207 { 42878230528 } else if b <= 208 { 43345301504 } else if b <= 209 { 43815321600 } else if b <= 210 { 44288307200 } else if b <= 211 { 44764254208 } else if b <= 212 { 45243174912 } else if b <= 213 { 45725065216 } else if b <= 214 { 46209941504 } else if b <= 215 { 46697803776 } else if b <= 216 { 47188656128 } else if b <= 217 { 47682502656 } else if b <= 218 { 48179355648 } else if b <= 219 { 48679211008 } else if b <= 220 { 49182081024 } else if b <= 221 { 49687969792 } else if b <= 222 { 50196881408 } else if b <= 223 { 50708815872 } else if b <= 224 { 51223785472 } else if b <= 225 { 51741794304 } else if b <= 226 { 52262846464 } else if b <= 227 { 52786946048 } else if b <= 228 { 53314097152 } else if b <= 229 { 53844307968 } else if b <= 230 { 54377578496 } else if b <= 231 { 54913921024 } else if b <= 232 { 55453335552 } else if b <= 233 { 55995830272 } else if b <= 234 { 56541405184 } else if b <= 235 { 57090072576 } else if b <= 236 { 57641828352 } else if b <= 237 { 58196684800 } else if b <= 238 { 58754646016 } else if b <= 239 { 59315712000 } else if b <= 240 { 59879890944 } else if b <= 241 { 60447191040 } else if b <= 242 { 61017612288 } else if b <= 243 { 61591162880 } else if b <= 244 { 62167842816 } else if b <= 245 { 62747660288 } else if b <= 246 { 63330623488 } else if b <= 247 { 63916732416 } else if b <= 248 { 64505991168 } else if b <= 249 { 65098407936 } else if b <= 250 { 65693986816 } else if b <= 251 { 66292736000 } else if b <= 252 { 66894651392 } else if b <= 253 { 67499745280 } else if b <= 254 { 68108017664 } else { 68719476736 }
}

fn thr_e0(b: u8) -> (r: u64)
    requires
        0 <= b < 64,
    ensures
        r == thr_q0(b as int),
{
    if b <= 0 { 0 } else if b <= 1 { 20776738 } else if b <= 2 { 41553476 } else if b <= 3 { 62330214 } else if b <= 4 { 83106952 } else if b <= 5 { 103883690 } else if b <= 6 { 124660428 } else if b <= 7 { 145437167 } else if b <= 8 { 166213905 } else if b <= 9 { 186990643 } else if b <= 10 { 207767381 } else if b <= 11 { 229025638 } else if b <= 12 { 251556899 } else if b <= 13 { 275330807 } else if b <= 14 { 300366208 } else if b <= 15 { 326681536 } else if b <= 16 { 354294835 } else if b <= 17 { 383223778 } else if b <= 18 { 413485693 } else if b <= 19 { 445097573 } else if b <= 20 { 478076097 } else if b <= 21 { 512437646 } else if b <= 22 { 548198311 } else if b <= 23 { 585373914 } else if b <= 24 { 623980014 } else if b <= 25 { 664031920 } else if b <= 26 { 705544702 } else if b <= 27 { 748533201 } else if b <= 28 { 793012036 } else if b <= 29 { 838995615 } else if b <= 30 { 886498143 } else if b <= 31 { 935533625 } else if b <= 32 { 986115881 } else if b <= 33 { 1038258545 } else if b <= 34 { 1091975075 } else if b <= 35 { 1147278761 } else if b <= 36 { 1204182725 } else if b <= 37 { 1262699931 } else if b <= 38 { 1322843188 } else if b <= 39 { 1384625157 } else if b <= 40 { 1448058353 } else if b <= 41 { 1513155148 } else if b <= 42 { 1579927782 } else if b <= 43 { 1648388358 } else if b <= 44 { 1718548854 } else if b <= 45 { 1790421119 } else if b <= 46 { 1864016883 } else if b <= 47 { 1939347757 } else if b <= 48 { 2016425235 } else if b <= 49 { 2095260700 } else if b <= 50 { 2175865426 } else if b <= 51 { 2258250579 } else if b <= 52 { 2342427222 } else if b <= 53 { 2428406314 } else if b <= 54 { 2516198720 } else if b <= 55 { 2605815202 } else if b <= 56 { 2697266432 } else if b <= 57 { 2790562989 } else if b <= 58 { 2885715360 } else if b <= 59 { 2982733946 } else if b <= 60 { 3081629060 } else if b <= 61 { 3182410931 } else if b <= 62 { 3285089707 } else { 3389675453 }
}

fn thr_e1(b: u8) -> (r: u64)
    requires
        64 <= b < 128,
    ensures
        r == thr_q1(b as int),
{
    if b <= 64 { 3496178158 } else if b <= 65 { 3604607729 } else if b <= 66 { 3714974001 } else if b <= 67 { 3827286734 } else if b <= 68 { 3941555614 } else if b <= 69 { 4057790256 } else if b <= 70 { 4176000205 } else if b <= 71 { 4296194937 } else if b <= 72 { 4418383862 } else if b <= 73 { 4542576323 } else if b <= 74 { 4668781597 } else if b <= 75 { 4797008899 } else if b <= 76 { 4927267380 } else if b <= 77 { 5059566131 } else if b <= 78 { 5193914181 } else if b <= 79 { 5330320502 } else if b <= 80 { 5468794005 } else if b <= 81 { 5609343547 } else if b <= 82 { 5751977924 } else if b <= 83 { 5896705882 } else if b <= 84 { 6043536109 } else if b <= 85 { 6192477240 } else if b <= 86 { 6343537858 } else if b <= 87 { 6496726495 } else if b <= 88 { 6652051630 } else if b <= 89 { 6809521693 } else if b <= 90 { 6969145065 } else if b <= 91 { 7130930076 } else if b <= 92 { 7294885012 } else if b <= 93 { 7461018109 } else if b <= 94 { 7629337556 } else if b <= 95 { 7799851499 } else if b <= 96 { 7972568037 } else if b <= 97 { 8147495225 } else if b <= 98 { 8324641074 } else if b <= 99 { 8504013552 } else if b <= 100 { 8685620584 } else if b <= 101 { 8869470054 } else if b <= 102 { 9055569805 } else if b <= 103 { 9243927636 } else if b <= 104 { 9434551311 } else if b <= 105 { 9627448550 } else if b <= 106 { 9822627035 } else if b <= 107 { 10020094410 } else if b <= 108 { 10219858282 } else if b <= 109 { 10421926217 } else if b <= 110 { 10626305747 } else if b <= 111 { 10833004367 } else if b <= 112 { 11042029533 } else if b <= 113 { 11253388670 } else if b <= 114 { 11467089163 } else if b <= 115 { 11683138367 } else if b <= 116 { 11901543597 } else if b <= 117 { 12122312139 } else if b <= 118 { 12345451244 } else if b <= 119 { 12570968128 } else if b <= 120 { 12798869977 } else if b <= 121 { 13029163943 } else if b <= 122 { 13261857146 } else if b <= 123 { 13496956676 } else if b <= 124 { 13734469591 } else if b <= 125 { 13974402916 } else if b <= 126 { 14216763649 } else { 14461558756 }
}

fn thr_e2(b: u8) -> (r: u64)
    requires
        128 <= b < 192,
    ensures
        r == thr_q2(b as int),
{
    if b <= 128 { 14708795174 } else if b <= 129 { 14958479810 } else if b <= 130 { 15210619541 } else if b <= 131 { 15465221217 } else if b <= 132 { 15722291660 } else if b <= 133 { 15981837661 } else if b <= 134 { 16243865985 } else if b <= 135 { 16508383370 } else if b <= 136 { 16775396525 } else if b <= 137 { 17044912134 } else if b <= 138 { 17316936854 } else if b <= 139 { 17591477313 } else if b <= 140 { 17868540116 } else if b <= 141 { 18148131841 } else if b <= 142 { 18430259041 } else if b <= 143 { 18714928243 } else if b <= 144 { 19002145948 } else if b <= 145 { 19291918635 } else if b <= 146 { 19584252756 } else if b <= 147 { 19879154740 } else if b <= 148 { 20176630990 } else if b <= 149 { 20476687889 } else if b <= 150 { 20779331792 } else if b <= 151 { 21084569035 } else if b <= 152 { 21392405926 } else if b <= 153 { 21702848755 } else if b <= 154 { 22015903785 } else if b <= 155 { 22331577261 } else if b <= 156 { 22649875401 } else if b <= 157 { 22970804405 } else if b <= 158 { 23294370449 } else if b <= 159 { 23620579687 } else if b <= 160 { 23949438254 } else if b <= 161 { 24280952261 } else if b <= 162 { 24615127800 } else if b <= 163 { 24951970941 } else if b <= 164 { 25291487733 } else if b <= 165 { 25633684207 } else if b <= 166 { 25978566370 } else if b <= 167 { 26326140212 } else if b <= 168 { 26676411702 } else if b <= 169 { 27029386789 } else if b <= 170 { 27385071402 } else if b <= 171 { 27743471452 } else if b <= 172 { 28104592830 } else if b <= 173 { 28468441407 } else if b <= 174 { 28835023037 } else if b <= 175 { 29204343554 } else if b <= 176 { 29576408773 } else if b <= 177 { 29951224493 } else if b <= 178 { 30328796491 } else if b <= 179 { 30709130529 } else if b <= 180 { 31092232349 } else if b <= 181 { 31478107678 } else if b <= 182 { 31866762221 } else if b <= 183 { 32258201670 } else if b <= 184 { 32652431696 } else if b <= 185 { 33049457955 } else if b <= 186 { 33449286085 } else if b <= 187 { 33851921707 } else if b <= 188 { 34257370426 } else if b <= 189 { 34665637829 } else if b <= 190 { 35076729487 } else { 35490650955 }
}

fn thr_e3(b: u8) -> (r: u64)
    requires
        192 <= b < 256,
    ensures
        r == thr_q3(b as int),
{
    if b <= 192 { 35907407772 } else if b <= 193 { 36327005459 } else if b <= 194 { 36749449523 } else if b <= 195 { 37174745453 } else if b <= 196 { 37602898725 } else if b <= 197 { 38033914796 } else if b <= 198 { 38467799111 } else if b <= 199 { 38904557096 } else if b <= 200 { 39344194164 } else if b <= 201 { 39786715712 } else if b <= 202 { 40232127122 } else if b <= 203 { 40680433762 } else if b <= 204 { 41131640983 } else if b <= 205 { 41585754122 } else if b <= 206 { 42042778503 } else if b <= 207 { 42502719433 } else if b <= 208 { 42965582207 } else if b <= 209 { 43431372103 } else if b <= 210 { 43900094387 } else if b <= 211 { 44371754309 } else if b <= 212 { 44846357107 } else if b <= 213 { 45323908003 } else if b <= 214 { 45804412207 } else if b <= 215 { 46287874914 } else if b <= 216 { 46774301306 } else if b <= 217 { 47263696551 } else if b <= 218 { 47756065803 } else if b <= 219 { 48251414204 } else if b <= 220 { 48749746883 } else if b <= 221 { 49251068953 } else if b <= 222 { 49755385518 } else if b <= 223 { 50262701664 } else if b <= 224 { 50773022470 } else if b <= 225 { 51286352997 } else if b <= 226 { 51802698295 } else if b <= 227 { 52322063403 } else if b <= 228 { 52844453346 } else if b <= 229 { 53369873136 } else if b <= 230 { 53898327773 } else if b <= 231 { 54429822245 } else if b <= 232 { 54964361528 } else if b <= 233 { 55501950586 } else if b <= 234 { 56042594368 } else if b <= 235 { 56586297816 } else if b <= 236 { 57133065856 } else if b <= 237 { 57682903404 } else if b <= 238 { 58235815363 } else if b <= 239 { 58791806626 } else if b <= 240 { 59350882073 } else if b <= 241 { 59913046573 } else if b <= 242 { 60478304984 } else if b <= 243 { 61046662151 } else if b <= 244 { 61618122909 } else if b <= 245 { 62192692081 } else if b <= 246 { 62770374480 } else if b <= 247 { 63351174907 } else if b <= 248 { 63935098151 } else if b <= 249 { 64522148992 } else if b <= 250 { 65112332197 } else if b <= 251 { 65705652524 } else if b <= 252 { 66302114719 } else if b <= 253 { 66901723518 } else if b <= 254 { 67504483646 } else { 68110399818 }
}

/// Both tables hold values of the unit interval: everything lies in
/// [0, LIN_ONE], i.e. the transfer function maps [0, 1] into [0, 1].
pub proof fn lemma_lin_range()
    ensures
        forall|b: int| 0 <= b <= 255 ==> 0 <= #[trigger] s_lin(b) <= LIN_ONE,
{
    assert(forall|b: int| 0 <= b < 64 ==> 0 <= #[trigger] lin_q0(b) <= LIN_ONE);
    assert(forall|b: int| 64 <= b < 128 ==> 0 <= #[trigger] lin_q1(b) <= LIN_ONE);
    assert(forall|b: int| 128 <= b < 192 ==> 0 <= #[trigger] lin_q2(b) <= LIN_ONE);
    assert(forall|b: int| 192 <= b <= 255 ==> 0 <= #[trigger] lin_q3(b) <= LIN_ONE);
}

/// The threshold table also lies in [0, LIN_ONE].
pub proof fn lemma_thresh_range()
    ensures
        forall|k: int| 0 <= k <= 255 ==> 0 <= #[trigger] s_thresh(k) <= LIN_ONE,
{
    assert(forall|k: int| 0 <= k < 64 ==> 0 <= #[trigger] thr_q0(k) <= LIN_ONE);
    assert(forall|k: int| 64 <= k < 128 ==> 0 <= #[trigger] thr_q1(k) <= LIN_ONE);
    assert(forall|k: int| 128 <= k < 192 ==> 0 <= #[trigger] thr_q2(k) <= LIN_ONE);
    assert(forall|k: int| 192 <= k <= 255 ==> 0 <= #[trigger] thr_q3(k) <= LIN_ONE);
}

/// The ends of the tables: byte 0 decodes to linear 0, byte 255 to linear 1.
pub proof fn lemma_lin_endpoints()
    ensures
        s_lin(0) == 0,
        s_lin(255) == LIN_ONE,
        s_thresh(0) == 0,
{
}

/// The encoding thresholds rise strictly from one output byte to the next.
pub proof fn lemma_thresh_adjacent()
    ensures
        forall|k: int| 0 <= k < 255 ==> #[trigger] s_thresh(k) < s_thresh(k + 1),
{
    assert(forall|k: int| 0 <= k < 63 ==> #[trigger] thr_q0(k) < thr_q0(k + 1));
    assert(thr_q0(63) < thr_q1(64));
    assert(forall|k: int| 64 <= k < 127 ==> #[trigger] thr_q1(k) < thr_q1(k + 1));
    assert(thr_q1(127) < thr_q2(128));
    assert(forall|k: int| 128 <= k < 191 ==> #[trigger] thr_q2(k) < thr_q2(k + 1));
    assert(thr_q2(191) < thr_q3(192));
    assert(forall|k: int| 192 <= k < 255 ==> #[trigger] thr_q3(k) < thr_q3(k + 1));
}

/// Strict monotonicity of the threshold table over any pair of indices.
pub proof fn lemma_thresh_mono(i: int, j: int)
    requires
        0 <= i < j <= 255,
    ensures
        s_thresh(i) < s_thresh(j),
    decreases j - i,
{
    lemma_thresh_adjacent();
    if i + 1 < j {
        lemma_thresh_mono(i + 1, j);
    }
}

/// Each sampled linear value sits strictly inside its own encoding bucket,
/// with room to spare: s_thresh(b) + 4096 <= s_lin(b) < s_thresh(b+1) - 4096
/// for every byte b (the lower bound holds from b = 1; at 0 both are 0).
/// This is why decoding a byte to linear light and encoding it again returns
/// the byte, even after small fixed-point rounding.
pub proof fn lemma_bracket()
    ensures
        s_lin(0) == 0,
        s_thresh(0) == 0,
        forall|b: int| 1 <= b <= 255 ==> s_thresh(b) + 4096 <= #[trigger] s_lin(b),
        forall|b: int| 0 <= b < 255 ==> #[trigger] s_lin(b) + 4096 <= s_thresh(b + 1),
{
    assert(forall|b: int| 1 <= b < 64 ==> thr_q0(b) + 4096 <= #[trigger] lin_q0(b));
    assert(forall|b: int| 64 <= b < 128 ==> thr_q1(b) + 4096 <= #[trigger] lin_q1(b));
    assert(forall|b: int| 128 <= b < 192 ==> thr_q2(b) + 4096 <= #[trigger] lin_q2(b));
    assert(forall|b: int| 192 <= b <= 255 ==> thr_q3(b) + 4096 <= #[trigger] lin_q3(b));
    assert(forall|b: int| 0 <= b < 63 ==> #[trigger] lin_q0(b) + 4096 <= thr_q0(b + 1));
    assert(lin_q0(63) + 4096 <= thr_q1(64));
    assert(forall|b: int| 64 <= b < 127 ==> #[trigger] lin_q1(b) + 4096 <= thr_q1(b + 1));
    assert(lin_q1(127) + 4096 <= thr_q2(128));
    assert(forall|b: int| 128 <= b < 191 ==> #[trigger] lin_q2(b) + 4096 <= thr_q2(b + 1));
    assert(lin_q2(191) + 4096 <= thr_q3(192));
    assert(forall|b: int| 192 <= b < 255 ==> #[trigger] lin_q3(b) + 4096 <= thr_q3(b + 1));
}

} // verus!
