use velox_ledger::decimal::{Decimal, MAX_MANTISSA};

fn decimal(text: &str) -> Decimal {
    Decimal::parse(text).unwrap()
}

#[test]
fn new_takes_what_fits() {
    let d = Decimal::new(-12345, 3).unwrap();
    assert_eq!(d.mantissa(), -12345);
    assert_eq!(d.scale(), 3);
    assert_eq!(d.to_text(), "-12.345");
    assert!(Decimal::new(MAX_MANTISSA, 28).is_some());
    assert!(Decimal::new(-MAX_MANTISSA, 0).is_some());
    assert!(Decimal::new(MAX_MANTISSA + 1, 0).is_none());
    assert!(Decimal::new(-MAX_MANTISSA - 1, 0).is_none());
    assert!(Decimal::new(1, 29).is_none());
}

#[test]
fn text_shows_all_places() {
    assert_eq!(Decimal::zero().to_text(), "0");
    assert_eq!(Decimal::new(0, 2).unwrap().to_text(), "0.00");
    assert_eq!(Decimal::new(5, 2).unwrap().to_text(), "0.05");
    assert_eq!(Decimal::new(-5, 4).unwrap().to_text(), "-0.0005");
    assert_eq!(Decimal::new(1000, 2).unwrap().to_text(), "10.00");
    assert_eq!(Decimal::new(100, 0).unwrap().to_text(), "100");
    assert_eq!(
        Decimal::new(MAX_MANTISSA, 28).unwrap().to_text(),
        "7.9228162514264337593543950335"
    );
    assert_eq!(
        Decimal::new(-MAX_MANTISSA, 0).unwrap().to_text(),
        "-79228162514264337593543950335"
    );
}

#[test]
fn text_parses_back_to_the_same_places() {
    let mantissas: [i128; 9] = [
        0,
        1,
        -7,
        100,
        99999999999999999,
        18446744073709551615,
        18446744073709551616,
        MAX_MANTISSA,
        -MAX_MANTISSA,
    ];
    for mantissa in mantissas {
        for scale in 0u32..=28 {
            let d = Decimal::new(mantissa, scale).unwrap();
            let back = decimal(&d.to_text());
            assert_eq!(back.mantissa(), mantissa);
            assert_eq!(back.scale(), scale);
        }
    }
}

#[test]
fn parse_refuses_what_is_no_number() {
    assert!(Decimal::parse("").is_none());
    assert!(Decimal::parse("ten").is_none());
    assert!(Decimal::parse("1.2.3").is_none());
    assert!(Decimal::parse("79228162514264337593543950336").is_none());
    assert_eq!(decimal("+1.50").to_text(), "1.50");
}

#[test]
fn sums_have_the_larger_scale() {
    assert_eq!(decimal("1.5").add(decimal("2.25")).to_text(), "3.75");
    assert_eq!(decimal("1.50").add(decimal("2.50")).to_text(), "4.00");
    assert_eq!(decimal("10").sub(decimal("0.01")).to_text(), "9.99");
    assert_eq!(decimal("1.00").sub(decimal("1")).to_text(), "0.00");
    assert_eq!(decimal("1").sub(decimal("2.5")).to_text(), "-1.5");
}

#[test]
fn zero_leaves_the_other_operand_as_it_is() {
    assert_eq!(decimal("0.000").add(decimal("5")).to_text(), "5");
    assert_eq!(decimal("5").add(decimal("0.000")).to_text(), "5");
    assert_eq!(decimal("0.000").sub(decimal("5.1")).to_text(), "-5.1");
    assert_eq!(decimal("0.0").add(decimal("0.000")).to_text(), "0.000");
    assert_eq!(
        decimal("0.000").add(decimal("79228162514264337593543950335")).to_text(),
        "79228162514264337593543950335"
    );
}

#[test]
fn a_difference_that_fits_is_exact_though_its_operands_do_not_align() {
    let a = decimal("10000000000000000000000000000");
    let b = decimal("7900000000000000000000000000.1");
    assert_eq!(a.sub(b).to_text(), "2099999999999999999999999999.9");
}

#[test]
fn turning_the_sign() {
    assert_eq!(decimal("1.20").neg().to_text(), "-1.20");
    assert_eq!(decimal("-1.20").neg().to_text(), "1.20");
    assert_eq!(decimal("0.00").neg().to_text(), "0.00");
}

#[test]
fn sums_out_of_range_are_none() {
    let max = Decimal::new(MAX_MANTISSA, 0).unwrap();
    assert!(max.checked_add(decimal("1")).is_none());
    assert!(max.neg().checked_sub(decimal("1")).is_none());
    assert_eq!(max.checked_sub(max).unwrap().to_text(), "0");
    assert_eq!(decimal("1.5").checked_add(decimal("1.5")).unwrap().to_text(), "3.0");
}

#[test]
fn a_sum_that_does_not_fit_is_rounded() {
    let max = Decimal::new(MAX_MANTISSA, 0).unwrap();
    assert_eq!(max.sub(decimal("0.6")).to_text(), "79228162514264337593543950334");
}

#[test]
fn a_sum_that_is_a_decimal_at_fewer_places_is_exact() {
    assert_eq!(
        decimal("79228162514264337593543950334").add(decimal("1.00")).to_text(),
        "79228162514264337593543950335"
    );
    assert_eq!(
        decimal("79228162514264337593543950335").sub(decimal("1.0000")).to_text(),
        "79228162514264337593543950334"
    );
    assert_eq!(
        decimal("7922816251426433759354395033.5").add(decimal("0.50000000000")).to_text(),
        "7922816251426433759354395034"
    );
    assert_eq!(
        decimal("5000000000000000000000000000.0").add(decimal("5000000000000000000000000000.0")).to_text(),
        "10000000000000000000000000000"
    );
    assert_eq!(
        decimal("70000000000000000000000000000")
            .sub(decimal("0.0000000000000000000000000000"))
            .to_text(),
        "70000000000000000000000000000"
    );
    assert_eq!(
        decimal("-70000000000000000000000000000")
            .sub(decimal("1.0000000000000000000000000000"))
            .to_text(),
        "-70000000000000000000000000001"
    );
    assert_eq!(
        decimal("123456789012345678.90").add(decimal("0.1000000000000000000000000000")).to_text(),
        "123456789012345679.00000000000"
    );
}

/// Mantissa and scale of two decimals, and of their sum, which needs fewer places than the larger
/// of the two scales.
const SHORTENED_SUMS: [(i128, u32, i128, u32, i128, u32); 60] = [
    (7119080244110670560737712552, 0, 1742281595771200, 2, 71190802441106879835536702640, 1),
    (-6485779659741637283628633687, 1, 720000000000000000000, 20, -64857796597416372836286336150, 2),
    (-10917025504643107707189662176, 8, 10806200000, 13, -10917025504643107707189554114, 8),
    (6559225301497892500293756879, 1, -683365508350463958413600, 3, 65592184678428089956541727430, 2),
    (63369031824457498617539771840, 1, -1800000000000000000000000000, 25, 63369031824457498617539770040, 1),
    (-10938697911548945931305437180, 2, -6409000000000000000000, 19, -10938697911548945931305501270, 2),
    (-45799879832241631633263862755, 1, 1298822300000000000000000000, 21, -45799879832241631633250874532, 1),
    (-52855392987471915737522535558, 1, -1320460000000000000000000000, 23, -52855392987471915737522667604, 1),
    (6255413446300335350477150670, 2, 1237940039200000000000000000, 19, 62554134463003353628565510620, 3),
    (23597247117424359962871810083, 3, -75848769500000000000, 14, 23597247117424359962113322388, 3),
    (77463847128688268899889942379, 2, 1586480000000000000000000, 21, 77463847128688268899890101027, 2),
    (67430578930219491913252345279, 4, -3000, 7, 67430578930219491913252345276, 4),
    (-39734731486204174049119080693, 0, -214000000000000, 12, -39734731486204174049119080907, 0),
    (5750032224484150475304975491, 0, 707590890005563952000, 3, 57500322251917413653105394430, 1),
    (31392524378230234767268767673, 2, 1290000000000000000000000000, 27, 31392524378230234767268767802, 2),
    (-79055682614773594060622755367, 3, -5659000000000000000000000000, 27, -79055682614773594060622761026, 3),
    (-3727089964613534240856039273, 0, -3601280000000000000000000000, 22, -37270899646135342408563994010, 1),
    (-63307733900074942109795250930, 3, 833980658044887764142560000, 7, -63307650502009137621018836674, 3),
    (59500666741537770496883037855, 0, -890204073190000000000000000, 16, 59500666741537770407862630536, 0),
    (-78793594354877729563526665576, 1, -3717000000000000000000000000, 25, -78793594354877729563526669293, 1),
    (51028196996412277239685601901, 3, -3444702718011492938840000000, 10, 51028196651942005438536308017, 3),
    (-65032346346384692867076073918, 14, 3772769643536397028263000000, 20, -65032342573615049330679045655, 14),
    (-48046902575608040163283652639, 4, 18450467376565000000000000, 16, -48046902575608021712816276074, 4),
    (-54071226747151160097531114228, 8, 603562000888283100000, 11, -54071226746547598096642831128, 8),
    (49799229509276809543701423236, 12, -14843600, 14, 49799229509276809543701274800, 12),
    (-6477320857818168027796288405, 16, -3169126500570573503740000000, 23, -64773211747308180848536387790, 17),
    (37409630969076990691245118975, 0, 1200000000000000000000000000, 24, 37409630969076990691245120175, 0),
    (-11220447288760056276584941026, 7, 6880000000, 14, -11220447288760056276584940338, 7),
    (25573272202130555832667270652, 0, -17277558608420605598400, 2, 25573272029354969748461214668, 0),
    (18982103255313181009750645131, 3, 7002740, 4, 18982103255313181009751345405, 3),
    (-42435004841217998580143911078, 2, -598300400000000000000000000, 22, -42435004841217998580149894082, 2),
    (-28362072479799225732961047940, 1, -70000000000000000000000, 23, -28362072479799225732961047947, 1),
    (77704978542432890476133510113, 3, -13780000000000000000, 19, 77704978542432890476133508735, 3),
    (-15572405601876507544023309773, 0, -3961408125713216879677197510, 1, -15968546414447829231991029524, 0),
    (6142282807563994174882496131, 6, 180729260000, 10, 61422828075639941749005690570, 7),
    (69421985194182633382532264983, 1, -1800640057142371308940000000, 8, 69421985014118627668295134089, 1),
    (43331072295828868819698776491, 1, 54094811000000000000000000, 19, 43331072295828868819752871302, 1),
    (43661518548710345109909969548, 2, -256380757209575880000000, 9, 43661518548684707034189011960, 2),
    (21427158502212444656527072358, 0, -2470000000000000000000000000, 25, 21427158502212444656527072111, 0),
    (-35825198894739741400922856696, 3, 2953828284000000000000000000, 21, -35825198894739741397969028412, 3),
    (57577118216734780989651042321, 3, 17000, 6, 57577118216734780989651042338, 3),
    (-21834796513759608117241736308, 0, -68200000000000000000000, 20, -21834796513759608117241736990, 0),
    (23921619081763599206941424087, 9, -1773657655365180000000, 16, 23921619081763421841175887569, 9),
    (31820138236751691679409424616, 3, 2896427871428854300, 5, 31820138236780655958123713159, 3),
    (22514162450217179866345616892, 4, -26409387500000000000000000000, 24, 22514162450217179866081523017, 4),
    (47979250844727397109163520931, 9, 851915725959831500000000000, 20, 47979250844735916266423119246, 9),
    (-72251517402071564830705258054, 0, 900000000000000000000000000, 26, -72251517402071564830705258045, 0),
    (-40350452870796194891521701338, 0, 6602346876100000000000000000, 17, -40350452870796194825498232577, 0),
    (65697480756889180288813973440, 8, -833980658044000000000000000, 23, 65697480756889179454833315396, 8),
    (-39535658152822866888495923449, 1, 1000000000000000000000000000, 27, -39535658152822866888495923439, 1),
    (-56480713309097872001885732573, 2, -8751356903389924000000, 8, -56480713309106623358789122497, 2),
    (-55119639564781843156306207272, 2, 5250531630163950, 3, -55119639564781318103143190877, 2),
    (79079668276333211050329288358, 15, -197126469900, 17, 79079668276333211048358023659, 15),
    (76501705236935439733160634872, 1, -14600000000000, 12, 76501705236935439733160634726, 1),
    (-51630474089972138664943551940, 0, -668253900000, 4, -51630474089972138665010377330, 0),
    (-68154524106352954290632649942, 0, 4951760157141521000000000000, 12, -68154524106348002530475508421, 0),
    (23818973598938180787673944043, 0, -27944814673390277878800000000, 8, 23818973319490034053771165255, 0),
    (-62842482547329444925622633887, 12, 70000, 16, -62842482547329444925622633880, 12),
    (-59607504248620676794530145694, 1, 5771286779184927320140, 2, -59607503671491998876037413680, 1),
    (-34453685830760597777905242762, 2, -79353010800, 4, -34453685830760597778698772870, 2),
];

#[test]
fn sums_drop_as_few_zeros_as_they_must() {
    for (am, asc, bm, bsc, m, s) in SHORTENED_SUMS {
        let a = Decimal::new(am, asc).unwrap();
        let b = Decimal::new(bm, bsc).unwrap();
        for sum in [a.add(b), b.add(a), a.sub(b.neg()), b.sub(a.neg())] {
            assert_eq!((sum.mantissa(), sum.scale()), (m, s));
        }
    }
}

/// What is left of a mantissa that is too large when zeros at the end are dropped.
fn fitted(mut mantissa: i128, mut scale: u32) -> Option<(i128, u32)> {
    while mantissa.abs() > MAX_MANTISSA {
        if scale == 0 || mantissa % 10 != 0 {
            return None;
        }
        mantissa /= 10;
        scale -= 1;
    }
    Some((mantissa, scale))
}

#[test]
fn sums_are_exact_wherever_they_can_be() {
    let mut state: u64 = 0x9e37_79b9_7f4a_7c15;
    let mut next = || {
        state ^= state << 13;
        state ^= state >> 7;
        state ^= state << 17;
        state
    };
    let mut compared = 0;
    for _ in 0..200_000 {
        let digits = 10i128.pow((next() % 29) as u32);
        let zeros = 10i128.pow((next() % 9) as u32);
        let am = ((next() as i128) << 32 | next() as i128) % (digits + 1) * zeros;
        let bm = ((next() as i128) << 32 | next() as i128) % (MAX_MANTISSA / 2) + next() as i128;
        let asc = (next() % 10) as u32;
        let bsc = (next() % 10) as u32;
        let am = if next() % 2 == 0 { am } else { -am };
        let (Some(a), Some(b)) = (Decimal::new(am, asc), Decimal::new(bm, bsc)) else {
            continue;
        };
        let expected = if am == 0 {
            Some((bm, bsc))
        } else if bm == 0 {
            Some((am, asc))
        } else {
            let scale = asc.max(bsc);
            let m = am * 10i128.pow(scale - asc) + bm * 10i128.pow(scale - bsc);
            fitted(m, scale)
        };
        if let Some(expected) = expected {
            let sum = a.add(b);
            assert_eq!((sum.mantissa(), sum.scale()), expected);
            let difference = a.sub(b.neg());
            assert_eq!((difference.mantissa(), difference.scale()), expected);
            compared += 1;
        }
    }
    assert!(compared > 10_000);
}
