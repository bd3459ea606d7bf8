//! The largest prime that fits in a `u64`, with the proof that it is prime and
//! that no larger prime fits.
//!
//! The proof is a certificate in the manner of Pratt: for the prime and for
//! the one large prime factor of its predecessor, the powers of a base that
//! the criterion of Lucas asks for are computed step by step, each step with
//! the quotient and remainder of its division written out.

use crate::factor::{lemma_product_push, product};
use crate::lucas::{
    lemma_lucas_criterion, lemma_multiply_step, lemma_power_mod_one, lemma_square_step, power_mod,
};
use crate::primality::{divides, is_prime, lemma_even_not_prime, lemma_multiple_divides};
use vstd::prelude::*;

verus! {

/// The largest prime below 2^64, which is 2^64 - 59.
pub const LARGEST_PRIME: u64 = 18446744073709551557;

/// The small primes among the factors that the certificate names.
proof fn lemma_small_primes()
    ensures
        is_prime(2),
        is_prime(3),
        is_prime(5),
        is_prime(11),
        is_prime(137),
        is_prime(547),
        is_prime(1427),
        is_prime(2131),
        is_prime(15331),
{
    assert(is_prime(2)) by {
        assert forall|d: int| 1 < d < 2 implies !#[trigger] divides(d, 2) by {
            let x = d as u32;
            assert(1 < x < 2 ==> 2u32 % x != 0) by (bit_vector);
        }
    }
    assert(is_prime(3)) by {
        assert forall|d: int| 1 < d < 3 implies !#[trigger] divides(d, 3) by {
            let x = d as u32;
            assert(1 < x < 3 ==> 3u32 % x != 0) by (bit_vector);
        }
    }
    assert(is_prime(5)) by {
        assert forall|d: int| 1 < d < 5 implies !#[trigger] divides(d, 5) by {
            let x = d as u32;
            assert(1 < x < 5 ==> 5u32 % x != 0) by (bit_vector);
        }
    }
    assert(is_prime(11)) by {
        assert forall|d: int| 1 < d < 11 implies !#[trigger] divides(d, 11) by {
            let x = d as u32;
            assert(1 < x < 11 ==> 11u32 % x != 0) by (bit_vector);
        }
    }
    assert(is_prime(137)) by {
        assert forall|d: int| 1 < d < 137 implies !#[trigger] divides(d, 137) by {
            let x = d as u32;
            assert(1 < x < 137 ==> 137u32 % x != 0) by (bit_vector);
        }
    }
    assert(is_prime(547)) by {
        assert forall|d: int| 1 < d < 547 implies !#[trigger] divides(d, 547) by {
            let x = d as u32;
            assert(1 < x < 547 ==> 547u32 % x != 0) by (bit_vector);
        }
    }
    assert(is_prime(1427)) by {
        assert forall|d: int| 1 < d < 1427 implies !#[trigger] divides(d, 1427) by {
            let x = d as u32;
            assert(1 < x < 1427 ==> 1427u32 % x != 0) by (bit_vector);
        }
    }
    assert(is_prime(2131)) by {
        assert forall|d: int| 1 < d < 2131 implies !#[trigger] divides(d, 2131) by {
            let x = d as u32;
            assert(1 < x < 2131 ==> 2131u32 % x != 0) by (bit_vector);
        }
    }
    assert(is_prime(15331)) by {
        assert forall|d: int| 1 < d < 15331 implies !#[trigger] divides(d, 15331) by {
            let x = d as u32;
            assert(1 < x < 15331 ==> 15331u32 % x != 0) by (bit_vector);
        }
    }
}

/// A squaring step modulo the cofactor, with base 13.
proof fn square_cofactor(e: nat, v: int, q: int, w: int)
    requires
        power_mod(13, e, 5594472617641) == v,
        v * v == q * 5594472617641 + w,
        0 <= w < 5594472617641,
    ensures
        power_mod(13, 2 * e, 5594472617641) == w,
{
    lemma_square_step(13, e, 5594472617641, v, q, w);
}

/// A multiplying step modulo the cofactor, with base 13.
proof fn multiply_cofactor(e: nat, v: int, q: int, w: int)
    requires
        power_mod(13, e, 5594472617641) == v,
        13 * v == q * 5594472617641 + w,
        0 <= w < 5594472617641,
    ensures
        power_mod(13, e + 1, 5594472617641) == w,
{
    lemma_multiply_step(13, e, 5594472617641, v, q, w);
}

/// The power of 13 modulo the cofactor with the factor 2 taken out of the
/// exponent.
proof fn lemma_cofactor_without_2()
    ensures
        power_mod(13, 2797236308820, 5594472617641) == 5594472617640,
{
    lemma_power_mod_one(13, 5594472617641);
    square_cofactor(1, 13, 0, 169);
    square_cofactor(2, 169, 0, 28561);
    multiply_cofactor(4, 28561, 0, 371293);
    square_cofactor(5, 371293, 0, 137858491849);
    square_cofactor(10, 137858491849, 3397096576, 966801141585);
    square_cofactor(20, 966801141585, 167076418324, 2908198258541);
    square_cofactor(40, 2908198258541, 1511780946842, 1951867008959);
    multiply_cofactor(80, 1951867008959, 4, 2996380645903);
    square_cofactor(81, 2996380645903, 1604851357540, 563268322269);
    square_cofactor(162, 563268322269, 56711548086, 576177923235);
    multiply_cofactor(324, 576177923235, 1, 1895840384414);
    square_cofactor(325, 1895840384414, 642457477017, 4694707866499);
    multiply_cofactor(650, 4694707866499, 10, 5086476088077);
    square_cofactor(651, 5086476088077, 4624607315620, 761394705509);
    square_cofactor(1302, 761394705509, 103624047734, 149920473587);
    multiply_cofactor(2604, 149920473587, 0, 1948966156631);
    square_cofactor(2605, 1948966156631, 678968213682, 439254505999);
    square_cofactor(5210, 439254505999, 34488419950, 4446940650051);
    square_cofactor(10420, 4446940650051, 3534789156482, 3133543603639);
    multiply_cofactor(20840, 3133543603639, 7, 1574758523820);
    square_cofactor(20841, 1574758523820, 443270452432, 3584092839488);
    square_cofactor(41682, 3584092839488, 2296145206174, 1063117586610);
    square_cofactor(83364, 1063117586610, 202024226447, 1624620340573);
    square_cofactor(166728, 1624620340573, 471785533935, 5034224820994);
    square_cofactor(333456, 5034224820994, 4530081972051, 3609971596345);
    multiply_cofactor(666912, 3609971596345, 8, 2173849811357);
    square_cofactor(666913, 2173849811357, 844694991881, 123173808728);
    square_cofactor(1333826, 123173808728, 2711924464, 1603183108560);
    square_cofactor(2667652, 1603183108560, 459417045222, 88733312298);
    square_cofactor(5335304, 88733312298, 1407389266, 375532399298);
    multiply_cofactor(10670608, 375532399298, 0, 4881921190874);
    square_cofactor(10670609, 4881921190874, 4260125331340, 4192086714936);
    multiply_cofactor(21341218, 4192086714936, 9, 4146873735399);
    square_cofactor(21341219, 4146873735399, 3073848591753, 5547990774528);
    square_cofactor(42682438, 5547990774528, 5501895127199, 545147305225);
    multiply_cofactor(85364876, 545147305225, 1, 1492442350284);
    square_cofactor(85364877, 1492442350284, 398140150315, 490494173741);
    multiply_cofactor(170729754, 490494173741, 1, 781951640992);
    square_cofactor(170729755, 781951640992, 109295086532, 4104010033052);
    square_cofactor(341459510, 4104010033052, 3010632011725, 2527578593979);
    square_cofactor(682919020, 2527578593979, 1141958140718, 1779647846203);
    multiply_cofactor(1365838040, 1779647846203, 4, 757531530075);
    square_cofactor(1365838041, 757531530075, 102575177014, 3269115401651);
    square_cofactor(2731676082, 3269115401651, 1910299011136, 4747324475625);
    multiply_cofactor(5463352164, 4747324475625, 11, 176019389074);
    square_cofactor(5463352165, 176019389074, 5538113678, 5030104383878);
    multiply_cofactor(10926704330, 5030104383878, 11, 3852158196363);
    square_cofactor(10926704331, 3852158196363, 2652461417545, 1907632516424);
    square_cofactor(21853408662, 1907632516424, 650474506970, 967830290006);
    multiply_cofactor(43706817324, 967830290006, 2, 1392848534796);
    square_cofactor(43706817325, 1392848534796, 346775679045, 2247601728771);
    square_cofactor(87413634650, 2247601728771, 902982975597, 980034463764);
    multiply_cofactor(174827269300, 980034463764, 2, 1551502793650);
    square_cofactor(174827269301, 1551502793650, 430274859351, 5252403911509);
    square_cofactor(349654538602, 5252403911509, 4931250671000, 1735415546081);
    multiply_cofactor(699309077204, 1735415546081, 4, 182511628489);
    square_cofactor(699309077205, 182511628489, 5954179564, 2391128334597);
    square_cofactor(1398618154410, 2391128334597, 1021989936009, 5594472617640);
}

/// The power of 13 modulo the cofactor with the factor 3 taken out of the
/// exponent.
proof fn lemma_cofactor_without_3()
    ensures
        power_mod(13, 1864824205880, 5594472617641) == 633520002390,
{
    lemma_power_mod_one(13, 5594472617641);
    square_cofactor(1, 13, 0, 169);
    multiply_cofactor(2, 169, 0, 2197);
    square_cofactor(3, 2197, 0, 4826809);
    square_cofactor(6, 4826809, 4, 920194651917);
    multiply_cofactor(12, 920194651917, 2, 773585239639);
    square_cofactor(13, 773585239639, 106968817954, 2251078923807);
    multiply_cofactor(26, 2251078923807, 5, 1291662921286);
    square_cofactor(27, 1291662921286, 298221694206, 3108768805750);
    square_cofactor(54, 3108768805750, 1727498577279, 3130775883661);
    square_cofactor(108, 3130775883661, 1752043186842, 1272018483199);
    multiply_cofactor(216, 1272018483199, 2, 5347295046305);
    square_cofactor(217, 5347295046305, 5111038388511, 1219583830474);
    square_cofactor(434, 1219583830474, 265866833428, 1767489761328);
    square_cofactor(868, 1767489761328, 558411895081, 3636882599663);
    square_cofactor(1736, 3636882599663, 2364282739006, 1171093308723);
    multiply_cofactor(3472, 1171093308723, 2, 4035267778117);
    square_cofactor(3473, 4035267778117, 2910620384442, 820452924367);
    multiply_cofactor(6946, 820452924367, 1, 5071415399130);
    square_cofactor(6947, 5071415399130, 4597261602359, 3084414141781);
    square_cofactor(13894, 3084414141781, 1700537521270, 2508155127891);
    square_cofactor(27788, 2508155127891, 1124474561861, 693311717980);
    square_cofactor(55576, 693311717980, 85920724104, 664010961736);
    square_cofactor(111152, 664010961736, 78811817921, 24911589335);
    square_cofactor(222304, 24911589335, 110928647, 5042221280498);
    square_cofactor(444608, 5042221280498, 4544484740409, 1372196172835);
    multiply_cofactor(889216, 1372196172835, 3, 1055132393932);
    square_cofactor(889217, 1055132393932, 199000771800, 147935096824);
    square_cofactor(1778434, 147935096824, 3911859860, 1507299096716);
    multiply_cofactor(3556868, 1507299096716, 3, 2811470404385);
    square_cofactor(3556869, 2811470404385, 1412888465984, 4469960404481);
    multiply_cofactor(7113738, 4469960404481, 10, 2164759081843);
    square_cofactor(7113739, 2164759081843, 837644976158, 1269077073371);
    multiply_cofactor(14227478, 1269077073371, 2, 5309056718541);
    square_cofactor(14227479, 5309056718541, 5038202019580, 1435557757901);
    multiply_cofactor(28454958, 1435557757901, 3, 1878832999790);
    square_cofactor(28454959, 1878832999790, 630982343173, 3585064329207);
    square_cofactor(56909918, 3585064329207, 2297390142553, 1324820671376);
    square_cofactor(113819836, 1324820671376, 313729270167, 3378406517329);
    multiply_cofactor(227639672, 3378406517329, 7, 4757976401790);
    square_cofactor(227639673, 4757976401790, 4046554695540, 5371927182960);
    multiply_cofactor(455279346, 5371927182960, 12, 2701381966788);
    square_cofactor(455279347, 2701381966788, 1304406157512, 4205939167752);
    square_cofactor(910558694, 4205939167752, 3162036083088, 1768466178096);
    square_cofactor(1821117388, 1768466178096, 559029033980, 2063053744036);
    multiply_cofactor(3642234776, 2063053744036, 4, 4441808201904);
    square_cofactor(3642234777, 4441808201904, 3526634492818, 3088754622878);
    square_cofactor(7284469554, 3088754622878, 1705326984757, 2888504704647);
    square_cofactor(14568939108, 2888504704647, 1491375505612, 1017177693317);
    square_cofactor(29137878216, 1017177693317, 184941554011, 3179353554438);
    multiply_cofactor(58275756432, 3179353554438, 7, 2170287884207);
    square_cofactor(58275756433, 2170287884207, 841929136534, 2102774022555);
    multiply_cofactor(116551512866, 2102774022555, 4, 4958171822651);
    square_cofactor(116551512867, 4958171822651, 4394242228554, 3221622346687);
    multiply_cofactor(233103025734, 3221622346687, 7, 2719782183444);
    square_cofactor(233103025735, 2719782183444, 1322236362736, 3627359075360);
    square_cofactor(466206051470, 3627359075360, 2351916750849, 633520002391);
    square_cofactor(932412102940, 633520002391, 71740022851, 633520002390);
}

/// The power of 13 modulo the cofactor with the factor 5 taken out of the
/// exponent.
proof fn lemma_cofactor_without_5()
    ensures
        power_mod(13, 1118894523528, 5594472617641) == 5539104407118,
{
    lemma_power_mod_one(13, 5594472617641);
    square_cofactor(1, 13, 0, 169);
    square_cofactor(2, 169, 0, 28561);
    square_cofactor(4, 28561, 0, 815730721);
    square_cofactor(8, 815730721, 118941, 4441568341660);
    square_cofactor(16, 4441568341660, 3526253622446, 4830358385714);
    square_cofactor(32, 4830358385714, 4170609765943, 3306456489333);
    multiply_cofactor(64, 3306456489333, 7, 3822626037842);
    square_cofactor(65, 3822626037842, 2611947689065, 2796314221299);
    square_cofactor(130, 2796314221299, 1397696218868, 1644731397013);
    square_cofactor(260, 1644731397013, 483538226604, 1567719401005);
    multiply_cofactor(520, 1567719401005, 3, 3596934360142);
    square_cofactor(521, 3596934360142, 2312628495199, 3022627054605);
    square_cofactor(1042, 3022627054605, 1633089468061, 4926717041924);
    square_cofactor(2084, 4926717041924, 4338664691046, 1672619279290);
    square_cofactor(4168, 1672619279290, 500074885455, 4641935592445);
    square_cofactor(8336, 4641935592445, 3851581286940, 3399814169485);
    square_cofactor(16672, 3399814169485, 2066099376477, 5260174534468);
    multiply_cofactor(33344, 5260174534468, 12, 1248597536392);
    square_cofactor(33345, 1248597536392, 278667162114, 1673281124590);
    multiply_cofactor(66690, 1673281124590, 3, 4969236766747);
    square_cofactor(66691, 4969236766747, 4413877005336, 2668440229633);
    square_cofactor(133382, 2668440229633, 1272787221564, 651249304165);
    multiply_cofactor(266764, 651249304165, 1, 2871768336504);
    square_cofactor(266765, 2871768336504, 1474143130585, 5587941292031);
    square_cofactor(533530, 5587941292031, 5581417591485, 2468081718076);
    square_cofactor(1067060, 2468081718076, 1088829597251, 3182197436885);
    multiply_cofactor(2134120, 3182197436885, 7, 2207258356018);
    square_cofactor(2134121, 2207258356018, 870857680999, 37558912965);
    multiply_cofactor(4268242, 37558912965, 0, 488265868545);
    square_cofactor(4268243, 488265868545, 42614125527, 485371795218);
    multiply_cofactor(8536486, 485371795218, 1, 715360720193);
    square_cofactor(8536487, 715360720193, 91472600720, 2599216655729);
    multiply_cofactor(17072974, 2599216655729, 6, 222980818631);
    square_cofactor(17072975, 222980818631, 8887423154, 909304454447);
    multiply_cofactor(34145950, 909304454447, 2, 632012672529);
    square_cofactor(34145951, 632012672529, 71399047870, 2895025781171);
    square_cofactor(68291902, 2895025781171, 1498116953368, 3723886966353);
    square_cofactor(136583804, 3723886966353, 2478756280698, 3139931527191);
    square_cofactor(273167608, 3139931527191, 1762305523555, 2071738316726);
    square_cofactor(546335216, 2071738316726, 767203621563, 1468129566193);
    multiply_cofactor(1092670432, 1468129566193, 3, 2302266507586);
    square_cofactor(1092670433, 2302266507586, 947440703389, 3948305662047);
    square_cofactor(2185340866, 3948305662047, 2786521387520, 753226989889);
    square_cofactor(4370681732, 753226989889, 101412758104, 4965292119657);
    multiply_cofactor(8741363464, 4965292119657, 11, 3009598761490);
    square_cofactor(8741363465, 3009598761490, 1619041744274, 3526603882466);
    square_cofactor(17482726930, 3526603882466, 2223075487867, 3426116579409);
    square_cofactor(34965453860, 3426116579409, 2098191486126, 1843448440515);
    square_cofactor(69930907720, 1843448440515, 607439232452, 3605178579493);
    multiply_cofactor(139861815440, 3605178579493, 8, 2111540592281);
    square_cofactor(139861815441, 2111540592281, 796965858549, 3265308720052);
    square_cofactor(279723630882, 3265308720052, 1905852752523, 1977729824461);
    square_cofactor(559447261764, 1977729824461, 699157101283, 5539104407118);
}

/// The power of 13 modulo the cofactor with the factor 1427 taken out of the
/// exponent.
proof fn lemma_cofactor_without_1427()
    ensures
        power_mod(13, 3920443320, 5594472617641) == 693744849281,
{
    lemma_power_mod_one(13, 5594472617641);
    square_cofactor(1, 13, 0, 169);
    multiply_cofactor(2, 169, 0, 2197);
    square_cofactor(3, 2197, 0, 4826809);
    multiply_cofactor(6, 4826809, 0, 62748517);
    square_cofactor(7, 62748517, 703, 4462135497666);
    square_cofactor(14, 4462135497666, 3558986621321, 8200123795);
    multiply_cofactor(28, 8200123795, 0, 106601609335);
    square_cofactor(29, 106601609335, 2031273345, 5265419063080);
    square_cofactor(58, 5265419063080, 4955719654864, 4309861230576);
    square_cofactor(116, 4309861230576, 3320224281418, 2306341996838);
    multiply_cofactor(232, 2306341996838, 5, 2010082870689);
    square_cofactor(233, 2010082870689, 722218772560, 4117872603761);
    multiply_cofactor(466, 4117872603761, 9, 3182090290124);
    square_cofactor(467, 3182090290124, 1809946943447, 4177410386849);
    square_cofactor(934, 4177410386849, 3119285540003, 3608203155878);
    multiply_cofactor(1868, 3608203155878, 8, 2150860085286);
    square_cofactor(1869, 2150860085286, 826923183409, 2322221783627);
    square_cofactor(3738, 2322221783627, 963936081364, 4700167532805);
    multiply_cofactor(7476, 4700167532805, 10, 5157451750055);
    square_cofactor(7477, 5157451750055, 4754569442393, 5105727448112);
    multiply_cofactor(14954, 5105727448112, 11, 4835258031405);
    square_cofactor(14955, 4835258031405, 4179074924157, 80631020388);
    square_cofactor(29910, 80631020388, 1162104436, 2768933715068);
    multiply_cofactor(59820, 2768933715068, 6, 2429302590038);
    square_cofactor(59821, 2429302590038, 1054882466553, 4978556579971);
    square_cofactor(119642, 4978556579971, 4430449001004, 738801249277);
    square_cofactor(239284, 738801249277, 97565458487, 144683653562);
    multiply_cofactor(478568, 144683653562, 0, 1880887496306);
    square_cofactor(478569, 1880887496306, 632363051095, 1359082278741);
    multiply_cofactor(957138, 1359082278741, 3, 884651770710);
    square_cofactor(957139, 884651770710, 139889639097, 490048393923);
    square_cofactor(1914278, 490048393923, 42925838555, 1285972381174);
    multiply_cofactor(3828556, 1285972381174, 2, 5528695719980);
    square_cofactor(3828557, 5528695719980, 5463692192851, 1341214515909);
    multiply_cofactor(7657114, 1341214515909, 3, 652370853894);
    square_cofactor(7657115, 652370853894, 76072895534, 759376447942);
    multiply_cofactor(15314230, 759376447942, 1, 4277421205605);
    square_cofactor(15314231, 4277421205605, 3270430194343, 1084123211162);
    multiply_cofactor(30628462, 1084123211162, 2, 2904656509824);
    square_cofactor(30628463, 2904656509824, 1508100944753, 3759974323303);
    square_cofactor(61256926, 3759974323303, 2527031210648, 3430936988441);
    multiply_cofactor(122513852, 3430936988441, 7, 5440872526246);
    square_cofactor(122513853, 5440872526246, 5291489630945, 5446772351771);
    multiply_cofactor(245027706, 5446772351771, 12, 3674369161331);
    square_cofactor(245027707, 3674369161331, 2413272824174, 1669782038027);
    multiply_cofactor(490055414, 1669782038027, 3, 4923748641428);
    square_cofactor(490055415, 4923748641428, 4333438080922, 3182795134182);
    square_cofactor(980110830, 3182795134182, 1810748851326, 4414230967158);
    square_cofactor(1960221660, 4414230967158, 3482979784363, 693744849281);
}

/// The power of 13 modulo the cofactor with the factor 2131 taken out of the
/// exponent.
proof fn lemma_cofactor_without_2131()
    ensures
        power_mod(13, 2625280440, 5594472617641) == 2614630137118,
{
    lemma_power_mod_one(13, 5594472617641);
    square_cofactor(1, 13, 0, 169);
    square_cofactor(2, 169, 0, 28561);
    square_cofactor(4, 28561, 0, 815730721);
    multiply_cofactor(8, 815730721, 0, 10604499373);
    square_cofactor(9, 10604499373, 20101163, 965718976646);
    multiply_cofactor(18, 965718976646, 2, 1365401461116);
    square_cofactor(19, 1365401461116, 333243413175, 944103145281);
    multiply_cofactor(38, 944103145281, 2, 1084395653371);
    square_cofactor(39, 1084395653371, 210192097346, 3189474782855);
    square_cofactor(78, 3189474782855, 1818357168893, 4849753709612);
    square_cofactor(156, 4849753709612, 4204169481450, 1368128931094);
    square_cofactor(312, 1368128931094, 334576089655, 4113249432981);
    multiply_cofactor(624, 4113249432981, 9, 3121989069984);
    square_cofactor(625, 3121989069984, 1742222443338, 5521588034598);
    multiply_cofactor(1250, 5521588034598, 12, 4646973038082);
    square_cofactor(1251, 4646973038082, 3859945323276, 2033336726808);
    multiply_cofactor(2502, 2033336726808, 4, 4055486977940);
    square_cofactor(2503, 4055486977940, 2939861494071, 3545475137089);
    multiply_cofactor(5006, 3545475137089, 8, 1335395841029);
    square_cofactor(5007, 1335395841029, 318757847989, 4917442004892);
    square_cofactor(10014, 4917442004892, 4322344128600, 2203419299064);
    multiply_cofactor(20028, 2203419299064, 5, 672087799627);
    square_cofactor(20029, 672087799627, 80740767053, 2123381957156);
    square_cofactor(40058, 2123381957156, 805929574444, 1623162441732);
    multiply_cofactor(80116, 1623162441732, 3, 4317693889593);
    square_cofactor(80117, 4317693889593, 3332303471366, 1592163738043);
    square_cofactor(160234, 1592163738043, 453123206063, 1904873512466);
    square_cofactor(320468, 1904873512466, 648594308434, 2742153916962);
    multiply_cofactor(640936, 2742153916962, 6, 2081165214660);
    square_cofactor(640937, 2081165214660, 774201421069, 1533400437371);
    multiply_cofactor(1281874, 1533400437371, 3, 3150787832900);
    square_cofactor(1281875, 3150787832900, 1774512924890, 3532800425510);
    square_cofactor(2563750, 3532800425510, 2230894616791, 3675697350069);
    square_cofactor(5127500, 3675697350069, 2415017810025, 4071732653736);
    multiply_cofactor(10255000, 4071732653736, 9, 2582270939799);
    square_cofactor(10255001, 2582270939799, 1191912743571, 5092318224390);
    multiply_cofactor(20510002, 5092318224390, 11, 4660938123019);
    square_cofactor(20510003, 4660938123019, 3883180001294, 1452830446907);
    square_cofactor(41020006, 1452830446907, 377286019919, 4390949075570);
    multiply_cofactor(82040012, 4390949075570, 10, 1137611806000);
    square_cofactor(82040013, 1137611806000, 231328439622, 3683275428298);
    multiply_cofactor(164080026, 3683275428298, 8, 3126799626746);
    square_cofactor(164080027, 3126799626746, 1747595631264, 3439021020292);
    multiply_cofactor(328160054, 3439021020292, 7, 5545964940309);
    square_cofactor(328160055, 5545964940309, 5497877855751, 2824757112090);
    square_cofactor(656320110, 2824757112090, 1426274340344, 4548611759596);
    square_cofactor(1312640220, 4548611759596, 3698269766178, 2614630137118);
}

/// The power of 13 modulo the cofactor with the factor 15331 taken out of the
/// exponent.
proof fn lemma_cofactor_without_15331()
    ensures
        power_mod(13, 364912440, 5594472617641) == 4170830691369,
{
    lemma_power_mod_one(13, 5594472617641);
    square_cofactor(1, 13, 0, 169);
    square_cofactor(2, 169, 0, 28561);
    multiply_cofactor(4, 28561, 0, 371293);
    square_cofactor(5, 371293, 0, 137858491849);
    square_cofactor(10, 137858491849, 3397096576, 966801141585);
    multiply_cofactor(20, 966801141585, 2, 1379469605323);
    square_cofactor(21, 1379469605323, 340145804987, 4766387958662);
    multiply_cofactor(42, 4766387958662, 11, 423844668555);
    square_cofactor(43, 423844668555, 32111034469, 1550997320396);
    multiply_cofactor(86, 1550997320396, 3, 3379547312225);
    square_cofactor(87, 3379547312225, 2041540072884, 872230303981);
    square_cofactor(174, 872230303981, 135988815243, 383132946598);
    square_cofactor(348, 383132946598, 26238550941, 2862926023423);
    square_cofactor(696, 2862926023423, 1465079190797, 3181277587052);
    square_cofactor(1392, 3181277587052, 1809022543781, 1323842610083);
    square_cofactor(2784, 1323842610083, 313266214002, 5115346857607);
    square_cofactor(5568, 5115346857607, 4677254723013, 1541021294116);
    square_cofactor(11136, 1541021294116, 424480874467, 1013165549109);
    square_cofactor(22272, 1013165549109, 183485468614, 5291362474307);
    square_cofactor(44544, 5291362474307, 5004674926143, 2789681241586);
    multiply_cofactor(89088, 2789681241586, 6, 2699020434772);
    square_cofactor(89089, 2699020434772, 1302126546181, 3782364912963);
    multiply_cofactor(178178, 3782364912963, 8, 4414962927391);
    square_cofactor(178179, 4414962927391, 3484134963637, 4090598346564);
    multiply_cofactor(356358, 4090598346564, 9, 2827524946563);
    square_cofactor(356359, 2827524946563, 1429070775719, 5167651654090);
    multiply_cofactor(712718, 5167651654090, 12, 45800091478);
    square_cofactor(712719, 45800091478, 374950155, 4265419540129);
    multiply_cofactor(1425438, 4265419540129, 9, 5100200462908);
    square_cofactor(1425439, 5100200462908, 4649597297129, 1182399763775);
    square_cofactor(2850878, 1182399763775, 249901875820, 3064278910005);
    square_cofactor(5701756, 3064278910005, 1678407578346, 3592479898239);
    multiply_cofactor(11403512, 3592479898239, 8, 1946457735979);
    square_cofactor(11403513, 1946457735979, 677221603696, 297430687305);
    multiply_cofactor(22807026, 297430687305, 0, 3866598934965);
    square_cofactor(22807027, 3866598934965, 2672385467886, 2513336974299);
    multiply_cofactor(45614054, 2513336974299, 5, 4701017577682);
    square_cofactor(45614055, 4701017577682, 3950250144399, 2527139750365);
    square_cofactor(91228110, 2527139750365, 1141561636701, 1686791990884);
    square_cofactor(182456220, 1686791990884, 508585422607, 4170830691369);
}

/// The cofactor 5594472617641, the large prime factor of the largest prime's
/// predecessor, is prime.
proof fn lemma_cofactor_is_prime()
    ensures
        is_prime(5594472617641),
{
    lemma_small_primes();
    let factors = seq![2u64, 2u64, 2u64, 3u64, 5u64, 1427u64, 2131u64, 15331u64];
    lemma_product_push(Seq::<u64>::empty(), 2);
    assert(product(Seq::<u64>::empty().push(2)) == 2);
    lemma_product_push(Seq::<u64>::empty().push(2), 2);
    assert(product(Seq::<u64>::empty().push(2).push(2)) == 4);
    lemma_product_push(Seq::<u64>::empty().push(2).push(2), 2);
    assert(product(Seq::<u64>::empty().push(2).push(2).push(2)) == 8);
    lemma_product_push(Seq::<u64>::empty().push(2).push(2).push(2), 3);
    assert(product(Seq::<u64>::empty().push(2).push(2).push(2).push(3)) == 24);
    lemma_product_push(Seq::<u64>::empty().push(2).push(2).push(2).push(3), 5);
    assert(product(Seq::<u64>::empty().push(2).push(2).push(2).push(3).push(5)) == 120);
    lemma_product_push(Seq::<u64>::empty().push(2).push(2).push(2).push(3).push(5), 1427);
    assert(product(Seq::<u64>::empty().push(2).push(2).push(2).push(3).push(5).push(1427)) == 171240);
    lemma_product_push(Seq::<u64>::empty().push(2).push(2).push(2).push(3).push(5).push(1427), 2131);
    assert(product(Seq::<u64>::empty().push(2).push(2).push(2).push(3).push(5).push(1427).push(2131)) == 364912440);
    lemma_product_push(Seq::<u64>::empty().push(2).push(2).push(2).push(3).push(5).push(1427).push(2131), 15331);
    assert(product(Seq::<u64>::empty().push(2).push(2).push(2).push(3).push(5).push(1427).push(2131).push(15331)) == 5594472617640);
    assert(factors =~= Seq::<u64>::empty().push(2).push(2).push(2).push(3).push(5).push(1427).push(2131).push(15331));
    lemma_cofactor_without_2();
    square_cofactor(2797236308820, 5594472617640, 5594472617639, 1);
    lemma_cofactor_without_3();
    lemma_cofactor_without_5();
    lemma_cofactor_without_1427();
    lemma_cofactor_without_2131();
    lemma_cofactor_without_15331();
    assert(5594472617640int / 2 == 2797236308820);
    assert(5594472617640int / 3 == 1864824205880);
    assert(5594472617640int / 5 == 1118894523528);
    assert(5594472617640int / 1427 == 3920443320);
    assert(5594472617640int / 2131 == 2625280440);
    assert(5594472617640int / 15331 == 364912440);
    lemma_lucas_criterion(5594472617641, 13, factors);
}

/// A squaring step modulo the largest prime, with base 2.
proof fn square_largest(e: nat, v: int, q: int, w: int)
    requires
        power_mod(2, e, 18446744073709551557) == v,
        v * v == q * 18446744073709551557 + w,
        0 <= w < 18446744073709551557,
    ensures
        power_mod(2, 2 * e, 18446744073709551557) == w,
{
    lemma_square_step(2, e, 18446744073709551557, v, q, w);
}

/// A multiplying step modulo the largest prime, with base 2.
proof fn multiply_largest(e: nat, v: int, q: int, w: int)
    requires
        power_mod(2, e, 18446744073709551557) == v,
        2 * v == q * 18446744073709551557 + w,
        0 <= w < 18446744073709551557,
    ensures
        power_mod(2, e + 1, 18446744073709551557) == w,
{
    lemma_multiply_step(2, e, 18446744073709551557, v, q, w);
}

/// The power of 2 modulo the largest prime with the factor 2 taken out of the
/// exponent.
proof fn lemma_largest_without_2()
    ensures
        power_mod(2, 9223372036854775778, 18446744073709551557) == 18446744073709551556,
{
    lemma_power_mod_one(2, 18446744073709551557);
    square_largest(1, 2, 0, 4);
    multiply_largest(2, 4, 0, 8);
    square_largest(3, 8, 0, 64);
    multiply_largest(6, 64, 0, 128);
    square_largest(7, 128, 0, 16384);
    multiply_largest(14, 16384, 0, 32768);
    square_largest(15, 32768, 0, 1073741824);
    multiply_largest(30, 1073741824, 0, 2147483648);
    square_largest(31, 2147483648, 0, 4611686018427387904);
    multiply_largest(62, 4611686018427387904, 0, 9223372036854775808);
    square_largest(63, 9223372036854775808, 4611686018427387918, 13835058055282164538);
    multiply_largest(126, 13835058055282164538, 1, 9223372036854777519);
    square_largest(127, 9223372036854777519, 4611686018427389629, 13835058055285193008);
    multiply_largest(254, 13835058055285193008, 1, 9223372036860834459);
    square_largest(255, 9223372036860834459, 4611686018433446569, 13835094762891564748);
    multiply_largest(510, 13835094762891564748, 1, 9223445452073577939);
    square_largest(511, 9223445452073577939, 4611759433938371387, 404131258417388162);
    multiply_largest(1022, 404131258417388162, 0, 808262516834776324);
    square_largest(1023, 808262516834776324, 35414829495637597, 11338562116451864447);
    multiply_largest(2046, 11338562116451864447, 1, 4230380159194177337);
    square_largest(2047, 4230380159194177337, 970150408104237889, 10894888694766068396);
    multiply_largest(4094, 10894888694766068396, 1, 3343033315822585235);
    square_largest(4095, 3343033315822585235, 605845221576402281, 1769877772898103708);
    multiply_largest(8190, 1769877772898103708, 0, 3539755545796207416);
    square_largest(8191, 3539755545796207416, 679245577101743232, 17464420295613584832);
    multiply_largest(16382, 17464420295613584832, 1, 16482096517517618107);
    square_largest(16383, 16482096517517618107, 14726691308084970564, 7353070418708895301);
    multiply_largest(32766, 7353070418708895301, 0, 14706140837417790602);
    square_largest(32767, 14706140837417790602, 11724051543502346741, 2775617278889096667);
    multiply_largest(65534, 2775617278889096667, 0, 5551234557778193334);
    square_largest(65535, 5551234557778193334, 1670549826697620735, 17918740325367301161);
    multiply_largest(131070, 17918740325367301161, 1, 17390736577025050765);
    square_largest(131071, 17390736577025050765, 16395181582342959674, 648607404152172807);
    multiply_largest(262142, 648607404152172807, 0, 1297214808304345614);
    square_largest(262143, 1297214808304345614, 91222941683371223, 7714362945472392785);
    multiply_largest(524286, 7714362945472392785, 0, 15428725890944785570);
    square_largest(524287, 15428725890944785570, 12904476891245780964, 15230244448593063952);
    multiply_largest(1048574, 15230244448593063952, 1, 12013744823476576347);
    square_largest(1048575, 12013744823476576347, 7824148484247179799, 8932770450280467366);
    multiply_largest(2097150, 8932770450280467366, 0, 17865540900560934732);
    square_largest(2097151, 17865540900560934732, 17302649746440079682, 2474286841996746950);
    multiply_largest(4194302, 2474286841996746950, 0, 4948573683993493900);
    square_largest(4194303, 4948573683993493900, 1327517821468232915, 5781302043460311345);
    multiply_largest(8388606, 5781302043460311345, 0, 11562604086920622690);
    square_largest(8388607, 11562604086920622690, 7247556139807619913, 17149236778609481559);
    multiply_largest(16777214, 17149236778609481559, 1, 15851729483509411561);
    square_largest(16777215, 15851729483509411561, 13621771225008972174, 5869667817449081803);
    multiply_largest(33554430, 5869667817449081803, 0, 11739335634898163606);
    square_largest(33554431, 11739335634898163606, 7470803552004640516, 7577485453789839824);
    multiply_largest(67108862, 7577485453789839824, 0, 15154970907579679648);
    square_largest(67108863, 15154970907579679648, 12450606041470401016, 1825922187988221992);
    multiply_largest(134217726, 1825922187988221992, 0, 3651844375976443984);
    square_largest(134217727, 3651844375976443984, 722944238455463357, 1670736492773995407);
    multiply_largest(268435454, 1670736492773995407, 0, 3341472985547990814);
    square_largest(268435455, 3341472985547990814, 605279808107712667, 11485852074649910077);
    multiply_largest(536870910, 11485852074649910077, 1, 4524960075590268597);
    square_largest(536870911, 4524960075590268597, 1109966268511709893, 1417768550293895008);
    multiply_largest(1073741822, 1417768550293895008, 0, 2835537100587790016);
    square_largest(1073741823, 2835537100587790016, 435863945240551657, 16100009174146000307);
    multiply_largest(2147483646, 16100009174146000307, 1, 13753274274582449057);
    square_largest(2147483647, 13753274274582449057, 10253980459428237796, 6814101574082140877);
    multiply_largest(4294967294, 6814101574082140877, 0, 13628203148164281754);
    square_largest(4294967295, 13628203148164281754, 10068330774553096948, 11281956556071968480);
    multiply_largest(8589934590, 11281956556071968480, 1, 4117169038434385403);
    square_largest(8589934591, 4117169038434385403, 918919936402301960, 11951317892237320689);
    multiply_largest(17179869182, 11951317892237320689, 1, 5455891710765089821);
    square_largest(17179869183, 5455891710765089821, 1613658987225774814, 14343661202392726643);
    multiply_largest(34359738366, 14343661202392726643, 1, 10240578331075901729);
    square_largest(34359738367, 10240578331075901729, 5684983980688607211, 414460088738711914);
    multiply_largest(68719476734, 414460088738711914, 0, 828920177477423828);
    square_largest(68719476735, 828920177477423828, 37248235129389398, 8350390225731980898);
    multiply_largest(137438953470, 8350390225731980898, 0, 16700780451463961796);
    square_largest(137438953471, 16700780451463961796, 15120070326422224340, 5076836200297248236);
    multiply_largest(274877906942, 5076836200297248236, 0, 10153672400594496472);
    square_largest(274877906943, 10153672400594496472, 5588902995923772309, 16114019803056011671);
    multiply_largest(549755813886, 16114019803056011671, 1, 13781295532402471785);
    square_largest(549755813887, 13781295532402471785, 10295806446520700463, 16562106732468815334);
    multiply_largest(1099511627774, 16562106732468815334, 1, 14677469391228079111);
    square_largest(1099511627775, 14677469391228079111, 11678381120789063039, 16518100287980948598);
    multiply_largest(2199023255550, 16518100287980948598, 1, 14589456502252345639);
    square_largest(2199023255551, 14589456502252345639, 11538743107217060500, 10977168162784119821);
    multiply_largest(4398046511102, 10977168162784119821, 1, 3507592251858688085);
    square_largest(4398046511103, 3507592251858688085, 666957993027817146, 3171645439065370903);
    multiply_largest(8796093022206, 3171645439065370903, 0, 6343290878130741806);
    square_largest(8796093022207, 6343290878130741806, 2181270526863505295, 15643607712291147321);
    multiply_largest(17592186044414, 15643607712291147321, 1, 12840471350872743085);
    square_largest(17592186044415, 12840471350872743085, 8938038271348314633, 11675204646244283644);
    multiply_largest(35184372088830, 11675204646244283644, 1, 4903665218779015731);
    square_largest(35184372088831, 4903665218779015731, 1303532617017954364, 16659095437214319613);
    multiply_largest(70368744177662, 16659095437214319613, 1, 14871446800719087669);
    square_largest(70368744177663, 14871446800719087669, 11989103825743259702, 14497072625898397547);
    multiply_largest(140737488355326, 14497072625898397547, 1, 10547401178087243537);
    square_largest(140737488355327, 10547401178087243537, 6030748362257990652, 6875221707930225205);
    multiply_largest(281474976710654, 6875221707930225205, 0, 13750443415860450410);
    square_largest(281474976710655, 13750443415860450410, 10249759707039617398, 2227468768633979414);
    multiply_largest(562949953421310, 2227468768633979414, 0, 4454937537267958828);
    square_largest(562949953421311, 4454937537267958828, 1075879211076845424, 9454575936255608416);
    multiply_largest(1125899906842622, 9454575936255608416, 1, 462407798801665275);
    square_largest(1125899906842623, 462407798801665275, 11591258139551072, 14176992470722206521);
    multiply_largest(2251799813685246, 14176992470722206521, 1, 9907240867734861485);
    square_largest(2251799813685247, 9907240867734861485, 5320907647393713199, 4116100672774504382);
    multiply_largest(4503599627370494, 4116100672774504382, 0, 8232201345549008764);
    square_largest(4503599627370495, 8232201345549008764, 3673772386219855129, 3631281814852421843);
    multiply_largest(9007199254740990, 3631281814852421843, 0, 7262563629704843686);
    square_largest(9007199254740991, 7262563629704843686, 2859302989446465607, 2822506059100266497);
    multiply_largest(18014398509481982, 2822506059100266497, 0, 5645012118200532994);
    square_largest(18014398509481983, 5645012118200532994, 1727468093409870587, 631780100508250077);
    multiply_largest(36028797018963966, 631780100508250077, 0, 1263560201016500154);
    square_largest(36028797018963967, 1263560201016500154, 86551012753970128, 5047256456828134420);
    multiply_largest(72057594037927934, 5047256456828134420, 0, 10094512913656268840);
    square_largest(72057594037927935, 10094512913656268840, 5523966210882749926, 7860816477920010818);
    multiply_largest(144115188075855870, 7860816477920010818, 0, 15721632955840021636);
    square_largest(144115188075855871, 15721632955840021636, 13399098605722153795, 15809474739312407681);
    multiply_largest(288230376151711742, 15809474739312407681, 1, 13172205404915263805);
    square_largest(288230376151711743, 13172205404915263805, 9405833058450811272, 8137476270782327521);
    square_largest(576460752303423486, 8137476270782327521, 3589713165258286695, 4904465323524371326);
    square_largest(1152921504606846972, 4904465323524371326, 1303958032568720770, 17298733141679259386);
    square_largest(2305843009213693944, 17298733141679259386, 16222167289322370571, 10371382968885067949);
    multiply_largest(4611686018427387888, 10371382968885067949, 1, 2296021864060584341);
    square_largest(4611686018427387889, 2296021864060584341, 285780318693613425, 18446744073709551556);
}

/// The power of 2 modulo the largest prime with the factor 11 taken out of the
/// exponent.
proof fn lemma_largest_without_11()
    ensures
        power_mod(2, 1676976733973595596, 18446744073709551557) == 7233656613878036887,
{
    lemma_power_mod_one(2, 18446744073709551557);
    square_largest(1, 2, 0, 4);
    square_largest(2, 4, 0, 16);
    multiply_largest(4, 16, 0, 32);
    square_largest(5, 32, 0, 1024);
    multiply_largest(10, 1024, 0, 2048);
    square_largest(11, 2048, 0, 4194304);
    multiply_largest(22, 4194304, 0, 8388608);
    square_largest(23, 8388608, 0, 70368744177664);
    square_largest(46, 70368744177664, 268435456, 15837691904);
    multiply_largest(92, 15837691904, 0, 31675383808);
    square_largest(93, 31675383808, 54, 7205759403792796786);
    square_largest(186, 7205759403792796786, 2814749767106562498, 1202461100518220410);
    square_largest(372, 1202461100518220410, 78383084433865822, 16712369429811383246);
    square_largest(744, 16712369429811383246, 15141061796187619021, 9232761566416130819);
    multiply_largest(1488, 9232761566416130819, 1, 18779059122710081);
    square_largest(1489, 18779059122710081, 19117360772454, 7437778354520615683);
    square_largest(2978, 7437778354520615683, 2998932853945682859, 12760134680353895026);
    multiply_largest(5956, 12760134680353895026, 1, 7073525286998238495);
    square_largest(5957, 7073525286998238495, 2712389773819947758, 7417689129552305819);
    multiply_largest(11914, 7417689129552305819, 0, 14835378259104611638);
    square_largest(11915, 14835378259104611638, 11931018677945752440, 3430321753466493964);
    multiply_largest(23830, 3430321753466493964, 0, 6860643506932987928);
    square_largest(23831, 6860643506932987928, 2551584666711133717, 5427237270661185815);
    square_largest(47662, 5427237270661185815, 1596753566610882015, 8726215140070666870);
    multiply_largest(95324, 8726215140070666870, 0, 17452430280141333740);
    square_largest(95325, 17452430280141333740, 16511711848233121092, 10351823140264247356);
    square_largest(190650, 10351823140264247356, 5809168376767149119, 10488347374315362453);
    square_largest(381300, 10488347374315362453, 5963406344488108599, 13322150769356638566);
    square_largest(762600, 13322150769356638566, 9621193876398772096, 12147704273153582884);
    multiply_largest(1525200, 12147704273153582884, 1, 5848664472597614211);
    square_largest(1525201, 5848664472597614211, 1854358469784239297, 11813184800942217092);
    square_largest(3050402, 11813184800942217092, 7565093036667749822, 17674211264570363610);
    multiply_largest(6100804, 17674211264570363610, 1, 16901678455431175663);
    square_largest(6100805, 16901678455431175663, 15486024713592731314, 2799590292632133671);
    multiply_largest(12201610, 2799590292632133671, 0, 5599180585264267342);
    square_largest(12201611, 5599180585264267342, 1699531532563611022, 5564668359845283710);
    multiply_largest(24403222, 5564668359845283710, 0, 11129336719690567420);
    square_largest(24403223, 11129336719690567420, 6714579837250635177, 5247022611486135811);
    square_largest(48806446, 5247022611486135811, 1492471851695744116, 8606960272955239109);
    multiply_largest(97612892, 8606960272955239109, 0, 17213920545910478218);
    square_largest(97612893, 17213920545910478218, 16063488460450601231, 15839337317410288857);
    square_largest(195225786, 15839337317410288857, 13600481778910183434, 13368953183428059711);
    square_largest(390451572, 13368953183428059711, 9688913583151898062, 8495690578784020987);
    square_largest(780903144, 8495690578784020987, 3912709913577999478, 3772811015496366923);
    multiply_largest(1561806288, 3772811015496366923, 0, 7545622030992733846);
    square_largest(1561806289, 7545622030992733846, 3086529070230293000, 7282919502277750716);
    square_largest(3123612578, 7282919502277750716, 2875353843730717888, 11334728934080361040);
    multiply_largest(6247225156, 11334728934080361040, 1, 4222713794451170523);
    square_largest(6247225157, 4222713794451170523, 966637349040990480, 10984331072917916169);
    multiply_largest(12494450314, 10984331072917916169, 1, 3521918072126280781);
    square_largest(12494450315, 3521918072126280781, 672417140781383013, 520744837162468720);
    multiply_largest(24988900630, 520744837162468720, 0, 1041489674324937440);
    square_largest(24988900631, 1041489674324937440, 58801745033769319, 13162049135038473917);
    square_largest(49977801262, 13162049135038473917, 9391334142271178656, 2693423612699355497);
    multiply_largest(99955602524, 2693423612699355497, 0, 5386847225398710994);
    square_largest(99955602525, 5386847225398710994, 1573075601517270142, 6957094799090756942);
    square_largest(199911205050, 6957094799090756942, 2623832577181866733, 8840586416954538083);
    square_largest(399822410100, 8840586416954538083, 4236843525521102347, 912597270227110610);
    square_largest(799644820200, 912597270227110610, 45148009551069522, 9162793272824226346);
    multiply_largest(1599289640400, 9162793272824226346, 0, 18325586545648452692);
    square_largest(1599289640401, 18325586545648452692, 18205224775719370023, 12373170699883271053);
    square_largest(3198579280802, 12373170699883271053, 8299315725133445517, 6697928806705708840);
    multiply_largest(6397158561604, 6697928806705708840, 0, 13395857613411417680);
    square_largest(6397158561605, 13395857613411417680, 9727949847504243689, 17547906216779208627);
    multiply_largest(12794317123210, 17547906216779208627, 1, 16649068359848865697);
    square_largest(12794317123211, 16649068359848865697, 15026580091495719728, 17987772881705279313);
    multiply_largest(25588634246422, 17987772881705279313, 1, 17528801689701007069);
    square_largest(25588634246423, 17528801689701007069, 16656537730946933175, 6986724699091767286);
    square_largest(51177268492846, 6986724699091767286, 2646229699173281836, 16901613295246187144);
    multiply_largest(102354536985692, 16901613295246187144, 1, 15356482516782822731);
    square_largest(102354536985693, 15356482516782822731, 12783912128121909607, 641460061710190262);
    square_largest(204709073971386, 641460061710190262, 22305888189540879, 11093005363430030041);
    square_largest(409418147942772, 11093005363430030041, 6670812339640254496, 12966987996649411409);
    square_largest(818836295885544, 12966987996649411409, 9115038243788959966, 12718844264853398219);
    multiply_largest(1637672591771088, 12718844264853398219, 1, 6990944455997244881);
    square_largest(1637672591771089, 6990944455997244881, 2649427139637787992, 7858046760921200617);
    square_largest(3275345183542178, 7858046760921200617, 3347414516626226815, 10150853298142779734);
    multiply_largest(6550690367084356, 10150853298142779734, 1, 1854962522576007911);
    square_largest(6550690367084357, 1854962522576007911, 186530801664100988, 881143026493945605);
    multiply_largest(13101380734168714, 881143026493945605, 0, 1762286052987891210);
    square_largest(13101380734168715, 1762286052987891210, 168357739455053261, 17114329456934786723);
    multiply_largest(26202761468337430, 17114329456934786723, 1, 15781914840160021889);
    square_largest(26202761468337431, 15781914840160021889, 13502048655677835488, 17434444840058873505);
    square_largest(52405522936674862, 17434444840058873505, 16477697401042254027, 9116377750943614986);
    square_largest(104811045873349724, 9116377750943614986, 4505312317762701822, 1479727401476943342);
    multiply_largest(209622091746699448, 1479727401476943342, 0, 2959454802953886684);
    square_largest(209622091746699449, 2959454802953886684, 474792337104591358, 3647460137994871450);
    multiply_largest(419244183493398898, 3647460137994871450, 0, 7294920275989742900);
    square_largest(419244183493398899, 7294920275989742900, 2884837650503860041, 928663288498776163);
    square_largest(838488366986797798, 928663288498776163, 46751638118863626, 7233656613878036887);
}

/// The power of 2 modulo the largest prime with the factor 137 taken out of the
/// exponent.
proof fn lemma_largest_without_137()
    ensures
        power_mod(2, 134647766961383588, 18446744073709551557) == 808296807897363856,
{
    lemma_power_mod_one(2, 18446744073709551557);
    square_largest(1, 2, 0, 4);
    multiply_largest(2, 4, 0, 8);
    square_largest(3, 8, 0, 64);
    multiply_largest(6, 64, 0, 128);
    square_largest(7, 128, 0, 16384);
    square_largest(14, 16384, 0, 268435456);
    multiply_largest(28, 268435456, 0, 536870912);
    square_largest(29, 536870912, 0, 288230376151711744);
    multiply_largest(58, 288230376151711744, 0, 576460752303423488);
    square_largest(59, 576460752303423488, 18014398509481984, 1062849512059437056);
    multiply_largest(118, 1062849512059437056, 0, 2125699024118874112);
    square_largest(119, 2125699024118874112, 244953598482448384, 14452262310464454656);
    multiply_largest(238, 14452262310464454656, 1, 10457780547219357755);
    square_largest(239, 10457780547219357755, 5928697960832434261, 15838037995685945648);
    square_largest(478, 15838037995685945648, 13598250539524521903, 1408667477055886933);
    square_largest(956, 1408667477055886933, 107571507090137435, 2629563119931910194);
    multiply_largest(1912, 2629563119931910194, 0, 5259126239863820388);
    square_largest(1913, 5259126239863820388, 1499365345792548473, 10877210429709348083);
    square_largest(3826, 10877210429709348083, 6413798893692002260, 5439047254825256069);
    multiply_largest(7652, 5439047254825256069, 0, 10878094509650512138);
    square_largest(7653, 10878094509650512138, 6414841539951631729, 8064016310682778991);
    multiply_largest(15306, 8064016310682778991, 0, 16128032621365557982);
    square_largest(15307, 16128032621365557982, 14100777632977917177, 9159596681646517735);
    multiply_largest(30614, 9159596681646517735, 0, 18319193363293035470);
    square_largest(30615, 18319193363293035470, 18192524607093629432, 1852586462421495276);
    square_largest(61230, 1852586462421495276, 186053245333349291, 15502582075236420089);
    multiply_largest(122460, 15502582075236420089, 1, 12558420076763288621);
    square_largest(122461, 12558420076763288621, 8549688454193192150, 15579790292115404091);
    square_largest(244922, 15579790292115404091, 13158412377620284250, 13799792353849459031);
    multiply_largest(489844, 13799792353849459031, 1, 9152840633989366505);
    square_largest(489845, 9152840633989366505, 4541424293439564211, 14390402336899388498);
    multiply_largest(979690, 14390402336899388498, 1, 10334060600089225439);
    square_largest(979691, 10334060600089225439, 5789249748334637233, 16142597964259420940);
    square_largest(1959382, 16142597964259420940, 14126258162116428073, 6736000260634823939);
    multiply_largest(3918764, 6736000260634823939, 0, 13472000521269647878);
    square_largest(3918765, 13472000521269647878, 9838852716765204881, 11385947414372353167);
    multiply_largest(7837530, 11385947414372353167, 1, 4325150755035154777);
    square_largest(7837531, 4325150755035154777, 1014104656032087289, 11740144053476060756);
    multiply_largest(15675062, 11740144053476060756, 1, 5033544033242569955);
    square_largest(15675063, 5033544033242569955, 1373497969796293523, 2435658991995036714);
    square_largest(31350126, 2435658991995036714, 321597930864191483, 108493528899128765);
    square_largest(62700252, 108493528899128765, 638098830121571, 758567053848089178);
    square_largest(125400504, 758567053848089178, 31193796199724411, 17082638980044757757);
    multiply_largest(250801008, 17082638980044757757, 1, 15718533886379963957);
    square_largest(250801009, 15718533886379963957, 13393816629646022965, 1897202013945591344);
    multiply_largest(501602018, 1897202013945591344, 0, 3794404027891182688);
    square_largest(501602019, 3794404027891182688, 780490143374204825, 16962903243175242819);
    multiply_largest(1003204038, 16962903243175242819, 1, 15479062412640934081);
    square_largest(1003204039, 15479062412640934081, 12988816466311536498, 14701258116969087175);
    multiply_largest(2006408078, 14701258116969087175, 1, 10955772160228622793);
    square_largest(2006408079, 10955772160228622793, 6506782072068033006, 4939521674144430507);
    multiply_largest(4012816158, 4939521674144430507, 0, 9879043348288861014);
    square_largest(4012816159, 9879043348288861014, 5290662519488427242, 15070117370366792402);
    multiply_largest(8025632318, 15070117370366792402, 1, 11693490667024033247);
    square_largest(8025632319, 11693490667024033247, 7412566869979937387, 1470750712253001450);
    multiply_largest(16051264638, 1470750712253001450, 0, 2941501424506002900);
    square_largest(16051264639, 2941501424506002900, 469049204336409599, 16352230825048214357);
    square_largest(32102529278, 16352230825048214357, 14495536550363441185, 10344598560526248404);
    square_largest(64205058556, 10344598560526248404, 5801062721467159668, 8623005631915544140);
    square_largest(128410117112, 8623005631915544140, 4030859095292609709, 13825838405674072687);
    multiply_largest(256820234224, 13825838405674072687, 1, 9204932737638593817);
    square_largest(256820234225, 9204932737638593817, 4593265151068569226, 6945735315040044607);
    square_largest(513640468450, 6945735315040044607, 2615271230186961890, 7441153800400621719);
    square_largest(1027280936900, 7441153800400621719, 3001655449870499558, 16440494017987803155);
    square_largest(2054561873800, 16440494017987803155, 14652441779181617484, 17677863139477331437);
    square_largest(4109123747600, 17677863139477331437, 16941030022933890503, 14681520353277321798);
    multiply_largest(8218247495200, 14681520353277321798, 1, 10916296632845092039);
    square_largest(8218247495201, 10916296632845092039, 6459976443544894831, 5987416460643875654);
    multiply_largest(16436494990402, 5987416460643875654, 0, 11974832921287751308);
    square_largest(16436494990403, 11974832921287751308, 7773546535896649877, 6217868818946502375);
    square_largest(32872989980806, 6217868818946502375, 2095865400156356783, 14224784088055479494);
    multiply_largest(65745979961612, 14224784088055479494, 1, 10002824102401407431);
    square_largest(65745979961613, 10002824102401407431, 5424073192742118587, 13821015655777529802);
    square_largest(131491959923226, 13821015655777529802, 10355240631840905848, 12969235788259353868);
    square_largest(262983919846452, 12969235788259353868, 9118198651174911425, 11915728090900722699);
    square_largest(525967839692904, 11915728090900722699, 7696999284477424093, 15977138214956381800);
    multiply_largest(1051935679385808, 15977138214956381800, 1, 13507532356203212043);
    square_largest(1051935679385809, 13507532356203212043, 9890820278355289691, 3777601107985134962);
    square_largest(2103871358771618, 3777601107985134962, 773592893901998856, 13838617179667722652);
    multiply_largest(4207742717543236, 13838617179667722652, 1, 9230490285625893747);
    square_largest(4207742717543237, 9230490285625893747, 4618807013995738207, 2143144825392461710);
    square_largest(8415485435086474, 2143144825392461710, 248990809665569396, 6238242371592774528);
    square_largest(16830970870172948, 6238242371592774528, 2109622583326147390, 14301283827659636554);
    multiply_largest(33661941740345896, 14301283827659636554, 1, 10155823581609721551);
    square_largest(33661941740345897, 10155823581609721551, 5591271403161989173, 6700062861834553240);
    square_largest(67323883480691794, 6700062861834553240, 2433537440166116592, 808296807897363856);
}

/// The power of 2 modulo the largest prime with the factor 547 taken out of the
/// exponent.
proof fn lemma_largest_without_547()
    ensures
        power_mod(2, 33723480939139948, 18446744073709551557) == 16285151747536493802,
{
    lemma_power_mod_one(2, 18446744073709551557);
    square_largest(1, 2, 0, 4);
    multiply_largest(2, 4, 0, 8);
    square_largest(3, 8, 0, 64);
    multiply_largest(6, 64, 0, 128);
    square_largest(7, 128, 0, 16384);
    square_largest(14, 16384, 0, 268435456);
    multiply_largest(28, 268435456, 0, 536870912);
    square_largest(29, 536870912, 0, 288230376151711744);
    multiply_largest(58, 288230376151711744, 0, 576460752303423488);
    square_largest(59, 576460752303423488, 18014398509481984, 1062849512059437056);
    multiply_largest(118, 1062849512059437056, 0, 2125699024118874112);
    square_largest(119, 2125699024118874112, 244953598482448384, 14452262310464454656);
    multiply_largest(238, 14452262310464454656, 1, 10457780547219357755);
    square_largest(239, 10457780547219357755, 5928697960832434261, 15838037995685945648);
    multiply_largest(478, 15838037995685945648, 1, 13229331917662339739);
    square_largest(479, 13229331917662339739, 9487594249063856577, 5634669908223547732);
    square_largest(958, 5634669908223547732, 1721144113442198962, 5179521771491459990);
    square_largest(1916, 5179521771491459990, 1454318749919056121, 13611936774144869703);
    multiply_largest(3832, 13611936774144869703, 1, 8777129474580187849);
    square_largest(3833, 8777129474580187849, 4176238446509347195, 15576347039861414186);
    multiply_largest(7666, 15576347039861414186, 1, 12705950006013276815);
    square_largest(7667, 12705950006013276815, 8751743121182888878, 13894519474673661179);
    multiply_largest(15334, 13894519474673661179, 1, 9342294875637770801);
    square_largest(15335, 9342294875637770801, 4731375531346896923, 309560946775022490);
    multiply_largest(30670, 309560946775022490, 0, 619121893550044980);
    square_largest(30671, 619121893550044980, 20779380769926356, 1639758667348064108);
    square_largest(61342, 1639758667348064108, 145760600157900532, 1064557090946107340);
    multiply_largest(122684, 1064557090946107340, 0, 2129114181892214680);
    square_largest(122685, 2129114181892214680, 245741317894424743, 14753781918192527549);
    square_largest(245370, 14753781918192527549, 11800135569713662015, 17715286799208940046);
    multiply_largest(490740, 17715286799208940046, 1, 16983829524708328535);
    square_largest(490741, 16983829524708328535, 15636931057955981431, 11279431668666108158);
    square_largest(981482, 11279431668666108158, 6896912444805412906, 1982831738673958322);
    square_largest(1962964, 1982831738673958322, 213133639637586315, 16249779811262913229);
    multiply_largest(3925928, 16249779811262913229, 1, 14052815548816274901);
    square_largest(3925929, 14052815548816274901, 10705500334365502806, 12137794248917390859);
    multiply_largest(7851858, 12137794248917390859, 1, 5828844424125230161);
    square_largest(7851859, 5828844424125230161, 1841811605608918220, 4151439205137417381);
    multiply_largest(15703718, 4151439205137417381, 0, 8302878410274834762);
    square_largest(15703719, 8302878410274834762, 3737125078569212738, 10349976881891463578);
    multiply_largest(31407438, 10349976881891463578, 1, 2253209690073375599);
    square_largest(31407439, 2253209690073375599, 275222222802791142, 18101969873776700707);
    square_largest(62814878, 18101969873776700707, 17763639588740937350, 4752066093922345899);
    square_largest(125629756, 4752066093922345899, 1224179837415894921, 15527718840658176204);
    square_largest(251259512, 15527718840658176204, 13070602130712209919, 1394736481574555733);
    multiply_largest(502519024, 1394736481574555733, 0, 2789472963149111466);
    square_largest(502519025, 2789472963149111466, 421817496954904650, 12380986942098629106);
    square_largest(1005038050, 12380986942098629106, 8309804540460083172, 14756834337508260432);
    multiply_largest(2010076100, 14756834337508260432, 1, 11066924601306969307);
    square_largest(2010076101, 11066924601306969307, 6639481723258055793, 8437811679724040548);
    multiply_largest(4020152202, 8437811679724040548, 0, 16875623359448081096);
    square_largest(4020152203, 16875623359448081096, 15438315977713920190, 8046196355204325386);
    multiply_largest(8040304406, 8046196355204325386, 0, 16092392710408650772);
    square_largest(8040304407, 16092392710408650772, 14038526371442027826, 1495513216280570902);
    multiply_largest(16080608814, 1495513216280570902, 0, 2991026432561141804);
    square_largest(16080608815, 2991026432561141804, 484976594489088332, 10820460298715241492);
    multiply_largest(32161217630, 10820460298715241492, 1, 3194176523720931427);
    square_largest(32161217631, 3194176523720931427, 553092926530649659, 9969088583671287266);
    square_largest(64322435262, 9969088583671287266, 5387548436297018763, 12910888072748890765);
    multiply_largest(128644870524, 12910888072748890765, 1, 7375032071788229973);
    square_largest(128644870525, 7375032071788229973, 2948547334021054879, 3874413929158684126);
    multiply_largest(257289741050, 3874413929158684126, 0, 7748827858317368252);
    square_largest(257289741051, 7748827858317368252, 3255009823842625974, 9587267954557193986);
    multiply_largest(514579482102, 9587267954557193986, 1, 727791835404836415);
    square_largest(514579482103, 727791835404836415, 28714062143727904, 5120645688842505697);
    multiply_largest(1029158964206, 5120645688842505697, 0, 10241291377685011394);
    square_largest(1029158964207, 10241291377685011394, 5685775693724018832, 11336124259366901812);
    square_largest(2058317928414, 11336124259366901812, 6966417092919775341, 13427187393352127407);
    square_largest(4116635856828, 13427187393352127407, 9773505859667893897, 16170753514233396020);
    multiply_largest(8233271713656, 16170753514233396020, 1, 13894762954757240483);
    square_largest(8233271713657, 13894762954757240483, 10466044132094354460, 16163968255091179069);
    square_largest(16466543427314, 16163968255091179069, 14163684859918721523, 17330783883529645450);
    square_largest(32933086854628, 17330783883529645450, 16282335181615101006, 16971378871186136158);
    multiply_largest(65866173709256, 16971378871186136158, 1, 15496013668662720759);
    square_largest(65866173709257, 15496013668662720759, 13017280375327156659, 9932206329633168018);
    multiply_largest(131732347418514, 9932206329633168018, 1, 1417668585556784479);
    square_largest(131732347418515, 1417668585556784479, 108950620794860738, 4114777497809232375);
    square_largest(263464694837030, 4114777497809232375, 917852700120015565, 17844280410738155920);
    multiply_largest(526929389674060, 17844280410738155920, 1, 17241816747766760283);
    square_largest(526929389674061, 17241816747766760283, 16115594360484273495, 12251359466195158374);
    multiply_largest(1053858779348122, 12251359466195158374, 1, 6055974858680765191);
    square_largest(1053858779348123, 6055974858680765191, 1988146598794243564, 804470985803837333);
    square_largest(2107717558696246, 804470985803837333, 35083349365840383, 8826113502553426558);
    multiply_largest(4215435117392492, 8826113502553426558, 0, 17652227005106853116);
    square_largest(4215435117392493, 17652227005106853116, 16891930467226467786, 781402681232266654);
    multiply_largest(8430870234784986, 781402681232266654, 0, 1562805362464533308);
    square_largest(8430870234784987, 1562805362464533308, 132400633477035839, 13042536835934171541);
    square_largest(16861740469569974, 13042536835934171541, 9221560533229206147, 16285151747536493802);
}

/// The power of 2 modulo the largest prime with the factor 5594472617641 taken out of the
/// exponent.
proof fn lemma_largest_without_5594472617641()
    ensures
        power_mod(2, 3297316, 18446744073709551557) == 11493017446059487016,
{
    lemma_power_mod_one(2, 18446744073709551557);
    square_largest(1, 2, 0, 4);
    multiply_largest(2, 4, 0, 8);
    square_largest(3, 8, 0, 64);
    square_largest(6, 64, 0, 4096);
    square_largest(12, 4096, 0, 16777216);
    multiply_largest(24, 16777216, 0, 33554432);
    square_largest(25, 33554432, 0, 1125899906842624);
    square_largest(50, 1125899906842624, 68719476736, 4054449127424);
    square_largest(100, 4054449127424, 891136, 52577024);
    multiply_largest(200, 52577024, 0, 105154048);
    square_largest(201, 105154048, 0, 11057373810786304);
    square_largest(402, 11057373810786304, 6628026881216, 3980787042087127104);
    multiply_largest(804, 3980787042087127104, 0, 7961574084174254208);
    square_largest(805, 7961574084174254208, 3436197826809680545, 18236870514628348699);
    square_largest(1610, 18236870514628348699, 18029384743366254100, 15207024341622358901);
    square_largest(3220, 15207024341622358901, 12536282197153665668, 10692998876667082725);
    square_largest(6440, 10692998876667082725, 6198396016094900125, 3199590993540181000);
    square_largest(12880, 3199590993540181000, 554969618759651071, 11075302503556232453);
    square_largest(25760, 11075302503556232453, 6649537991915781284, 15945028504836738021);
    square_largest(51520, 15945028504836738021, 13782591280290303732, 17085842822743485717);
    multiply_largest(103040, 17085842822743485717, 1, 15724941571777419877);
    square_largest(103041, 15724941571777419877, 13404738876831402928, 1929396281097936233);
    square_largest(206082, 1929396281097936233, 201800924577252815, 12498645655068347334);
    square_largest(412164, 12498645655068347334, 8468494092331414982, 3693579951573680582);
    multiply_largest(824328, 3693579951573680582, 0, 7387159903147361164);
    square_largest(824329, 7387159903147361164, 2958252752714335200, 13518867379275528496);
    square_largest(1648658, 13518867379275528496, 9907427266739755000, 11493017446059487016);
}

/// `LARGEST_PRIME` is prime.
pub proof fn lemma_largest_prime_is_prime()
    ensures
        is_prime(LARGEST_PRIME as int),
{
    lemma_small_primes();
    lemma_cofactor_is_prime();
    let factors = seq![2u64, 2u64, 11u64, 137u64, 547u64, 5594472617641u64];
    lemma_product_push(Seq::<u64>::empty(), 2);
    assert(product(Seq::<u64>::empty().push(2)) == 2);
    lemma_product_push(Seq::<u64>::empty().push(2), 2);
    assert(product(Seq::<u64>::empty().push(2).push(2)) == 4);
    lemma_product_push(Seq::<u64>::empty().push(2).push(2), 11);
    assert(product(Seq::<u64>::empty().push(2).push(2).push(11)) == 44);
    lemma_product_push(Seq::<u64>::empty().push(2).push(2).push(11), 137);
    assert(product(Seq::<u64>::empty().push(2).push(2).push(11).push(137)) == 6028);
    lemma_product_push(Seq::<u64>::empty().push(2).push(2).push(11).push(137), 547);
    assert(product(Seq::<u64>::empty().push(2).push(2).push(11).push(137).push(547)) == 3297316);
    lemma_product_push(Seq::<u64>::empty().push(2).push(2).push(11).push(137).push(547), 5594472617641);
    assert(product(Seq::<u64>::empty().push(2).push(2).push(11).push(137).push(547).push(5594472617641)) == 18446744073709551556);
    assert(factors =~= Seq::<u64>::empty().push(2).push(2).push(11).push(137).push(547).push(5594472617641));
    lemma_largest_without_2();
    square_largest(9223372036854775778, 18446744073709551556, 18446744073709551555, 1);
    lemma_largest_without_11();
    lemma_largest_without_137();
    lemma_largest_without_547();
    lemma_largest_without_5594472617641();
    assert(18446744073709551556int / 2 == 9223372036854775778);
    assert(18446744073709551556int / 11 == 1676976733973595596);
    assert(18446744073709551556int / 137 == 134647766961383588);
    assert(18446744073709551556int / 547 == 33723480939139948);
    assert(18446744073709551556int / 5594472617641 == 3297316);
    lemma_lucas_criterion(18446744073709551557, 2, factors);
}

/// No number above `LARGEST_PRIME` that fits in a `u64` is prime: each of them
/// is even or has the divisor given here.
pub proof fn lemma_no_larger_prime_fits()
    ensures
        forall|q: int| LARGEST_PRIME < q <= u64::MAX ==> !#[trigger] is_prime(q),
{
    lemma_multiple_divides(41, 449920587163647599);
    lemma_multiple_divides(3, 6148914691236517187);
    lemma_multiple_divides(29, 636094623231363847);
    lemma_multiple_divides(5, 3689348814741910313);
    lemma_multiple_divides(3, 6148914691236517189);
    lemma_multiple_divides(31, 595056260442243599);
    lemma_multiple_divides(11071, 1666222028155501);
    lemma_multiple_divides(3, 6148914691236517191);
    lemma_multiple_divides(5, 3689348814741910315);
    lemma_multiple_divides(139646831, 132095686967);
    lemma_multiple_divides(3, 6148914691236517193);
    lemma_multiple_divides(17, 1085102592571150093);
    lemma_multiple_divides(827, 22305615566758829);
    lemma_multiple_divides(3, 6148914691236517195);
    lemma_multiple_divides(13, 1418980313362273199);
    lemma_multiple_divides(11, 1676976733973595599);
    lemma_multiple_divides(3, 6148914691236517197);
    lemma_multiple_divides(7, 2635249153387078799);
    lemma_multiple_divides(5, 3689348814741910319);
    lemma_multiple_divides(3, 6148914691236517199);
    lemma_multiple_divides(19, 970881267037344821);
    lemma_multiple_divides(53, 348051774975651917);
    lemma_multiple_divides(3, 6148914691236517201);
    lemma_multiple_divides(5, 3689348814741910321);
    lemma_multiple_divides(7, 2635249153387078801);
    lemma_multiple_divides(3, 6148914691236517203);
    lemma_multiple_divides(11, 1676976733973595601);
    lemma_multiple_divides(13, 1418980313362273201);
    lemma_multiple_divides(3, 6148914691236517205);
    assert forall|q: int| LARGEST_PRIME < q <= u64::MAX implies !#[trigger] is_prime(q) by {
        if q % 2 == 0 {
            lemma_even_not_prime(q);
        }
    }
}

/// A prime above `bound` fits in a `u64` exactly when `bound` is below
/// `LARGEST_PRIME`.
pub proof fn lemma_prime_above_fits(bound: int)
    ensures
        (exists|q: int| #[trigger] is_prime(q) && bound < q <= u64::MAX) <==> bound
            < LARGEST_PRIME,
{
    lemma_largest_prime_is_prime();
    lemma_no_larger_prime_fits();
}

} // verus!
