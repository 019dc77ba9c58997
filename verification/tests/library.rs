use reticle::bram;
use reticle::errors;
use reticle::il;
use reticle::ir;
use reticle::isa::{emit_scalar_op, DspScalarArith, LutRegI8I8B};
use reticle::lower;
use reticle::numfmt;
use reticle::placed;
use reticle::prim;
use reticle::prims;
use reticle::prims::ToPrim;
use reticle::sel;
use reticle::target;
use reticle::verilog;
use reticle::xpand;

/// Re-evaluates an expanded literal back into its bit-wise value.
fn lit_value(e: &verilog::Expr, vcc: &str) -> i64 {
    match e {
        verilog::Expr::Ref(n) => {
            if n == vcc {
                1
            } else {
                0
            }
        }
        verilog::Expr::Concat(es) => {
            let mut v: i64 = 0;
            for (i, b) in es.iter().enumerate() {
                if let verilog::Expr::Ref(n) = b {
                    if n == vcc {
                        v |= 1 << i;
                    }
                }
            }
            v
        }
        _ => panic!("not a literal expansion"),
    }
}

fn port<'a>(inst: &'a verilog::Instance, name: &str) -> &'a verilog::Expr {
    for (n, e) in inst.ports.iter() {
        if n == name {
            return e;
        }
    }
    panic!("port not connected");
}

fn param<'a>(inst: &'a verilog::Instance, name: &str) -> &'a verilog::Expr {
    for (n, e) in inst.params.iter() {
        if n == name {
            return e;
        }
    }
    panic!("parameter not set");
}

#[test]
fn literal_roundtrip_all_widths() {
    let vcc = prim::Expr::new_ref("vcc");
    let gnd = prim::Expr::new_ref("gnd");
    let v: i64 = 0x5a5a_5a5a_5a5a_5a5i64;
    for w in 2..=64i64 {
        let e = lower::convert_literal(&vcc, &gnd, w, v);
        match &e {
            verilog::Expr::Concat(es) => {
                assert_eq!(es.len(), w as usize);
                for i in 0..w {
                    let bit = lit_value(&es[i as usize], "vcc");
                    assert_eq!(bit, (v >> i) & 1);
                }
            }
            _ => panic!("multi-bit literal must be a concatenation"),
        }
    }
}

#[test]
fn literal_single_bit_is_bare_reference() {
    let vcc = prim::Expr::new_ref("vcc");
    let gnd = prim::Expr::new_ref("gnd");
    let one = lower::convert_literal(&vcc, &gnd, 1, 1);
    assert!(matches!(&one, verilog::Expr::Ref(n) if n == "vcc"));
    let zero = lower::convert_literal(&vcc, &gnd, 1, 2);
    assert!(matches!(&zero, verilog::Expr::Ref(n) if n == "gnd"));
}

#[test]
fn regs_from_init_picks_set_type_per_bit() {
    let regs = prim::regs_from_init(8, 0b10110000);
    assert_eq!(regs.len(), 8);
    for (i, r) in regs.iter().enumerate() {
        if i == 4 || i == 5 || i == 7 {
            assert!(r.is_fdse());
        } else {
            assert!(r.is_fdre());
        }
    }
}

#[test]
fn lut4_connects_exactly_four_inputs() {
    let mut lut = prim::Lut::new_lut4();
    lut.set_id("i0");
    lut.set_init("a9");
    lut.add_input("a");
    lut.add_input("b");
    lut.add_input("c");
    lut.add_input("d");
    lut.set_output("y");
    let stmt = lut.to_stmt();
    let inst = match stmt {
        verilog::Stmt::Inst(inst) => inst,
        _ => panic!("a lookup table lowers to an instance"),
    };
    assert_eq!(inst.prim, "LUT4");
    assert_eq!(inst.params.len(), 1);
    assert_eq!(inst.params[0].0, "INIT");
    assert!(matches!(&inst.params[0].1, verilog::Expr::UlitHex(16, s) if s == "a9"));
    let names: Vec<&str> = inst.ports.iter().map(|p| p.0.as_str()).collect();
    assert_eq!(names, vec!["I0", "I1", "I2", "I3", "O"]);
}

#[test]
fn reg_lowering_fdre_and_fdse() {
    let mut r = prim::Reg::new_fdre();
    r.set_id("r0");
    r.set_clock("clock");
    r.set_reset("reset");
    r.set_en("en");
    r.set_input("d");
    r.set_output("q");
    match r.to_stmt() {
        verilog::Stmt::Inst(inst) => {
            assert_eq!(inst.prim, "FDRE");
            assert!(matches!(param(&inst, "INIT"), verilog::Expr::UlitBin(1, s) if s == "0"));
            assert!(matches!(port(&inst, "R"), verilog::Expr::Ref(n) if n == "reset"));
        }
        _ => panic!("a register lowers to an instance"),
    }
    let mut s = prim::Reg::new_fdse();
    s.set_id("r1");
    s.set_clock("clock");
    s.set_reset("reset");
    s.set_en("en");
    s.set_input("d");
    s.set_output("q");
    match s.to_stmt() {
        verilog::Stmt::Inst(inst) => {
            assert_eq!(inst.prim, "FDSE");
            assert!(matches!(param(&inst, "INIT"), verilog::Expr::UlitBin(1, s) if s == "1"));
            assert!(matches!(port(&inst, "S"), verilog::Expr::Ref(n) if n == "reset"));
        }
        _ => panic!("a register lowers to an instance"),
    }
}

fn vector_dsp(op: prim::DspVectorOp) -> prim::DspVector {
    let mut d = prim::DspVector::new(op, 48, 1, 48);
    d.set_id("d0");
    d.set_input("vcc", prim::Expr::new_ref("vcc"));
    d.set_input("gnd", prim::Expr::new_ref("gnd"));
    d.set_input("clock", prim::Expr::new_ref("clock"));
    d.set_input("reset", prim::Expr::new_ref("reset"));
    d.set_input("a", prim::Expr::new_ref("a"));
    d.set_input("b", prim::Expr::new_ref("b"));
    d.set_output("y", prim::Expr::new_ref("y"));
    d
}

#[test]
fn dsp_vector_ctrl_triples_match_table() {
    let table = [
        (prim::DspVectorOp::Add, 0, 51),
        (prim::DspVectorOp::Sub, 3, 51),
        (prim::DspVectorOp::And, 12, 51),
        (prim::DspVectorOp::Or, 12, 59),
        (prim::DspVectorOp::Xor, 4, 51),
        (prim::DspVectorOp::Nand, 14, 51),
        (prim::DspVectorOp::Nor, 14, 59),
        (prim::DspVectorOp::Xnor, 5, 51),
    ];
    for (op, alumode, opmode) in table {
        let d = vector_dsp(op);
        match d.to_stmt() {
            verilog::Stmt::Inst(inst) => {
                assert_eq!(inst.prim, "DSP48E2");
                assert_eq!(lit_value(port(&inst, "ALUMODE"), "vcc"), alumode);
                assert_eq!(lit_value(port(&inst, "INMODE"), "vcc"), 0);
                assert_eq!(lit_value(port(&inst, "OPMODE"), "vcc"), opmode);
                assert!(matches!(param(&inst, "USE_MULT"), verilog::Expr::Str(s) if s == "NONE"));
            }
            _ => panic!("a vector DSP lowers to an instance"),
        }
    }
}

#[test]
fn dsp_vector_simd_mode_follows_lane_count() {
    for (len, simd) in [(1u64, "ONE48"), (2, "TWO24"), (3, "FOUR12"), (4, "FOUR12")] {
        let mut d = vector_dsp(prim::DspVectorOp::Add);
        d.length = len;
        match d.to_stmt() {
            verilog::Stmt::Inst(inst) => {
                assert!(matches!(param(&inst, "USE_SIMD"), verilog::Expr::Str(s) if s == simd));
            }
            _ => panic!("a vector DSP lowers to an instance"),
        }
    }
}

#[test]
fn dsp_vector_every_pin_is_tied() {
    let d = vector_dsp(prim::DspVectorOp::Add);
    match d.to_stmt() {
        verilog::Stmt::Inst(inst) => {
            assert_eq!(inst.ports.len(), 50);
            assert_eq!(inst.params.len(), 46);
            // unused outputs sit on the explicit empty placeholder
            assert!(matches!(port(&inst, "ACOUT"), verilog::Expr::Ref(n) if n.is_empty()));
            assert!(matches!(port(&inst, "XOROUT"), verilog::Expr::Ref(n) if n.is_empty()));
            // undriven inputs are tied low at their widths
            assert_eq!(lit_value(port(&inst, "ACIN"), "vcc"), 0);
            match port(&inst, "PCIN") {
                verilog::Expr::Concat(es) => assert_eq!(es.len(), 48),
                _ => panic!("PCIN must be a tied bus"),
            }
        }
        _ => panic!("a vector DSP lowers to an instance"),
    }
}

#[test]
fn selection_end_to_end_fuses_mul_reg_add_onto_one_dsp() {
    // x = mul(a, b); y = reg(x, en); z = add(y, c)
    let mut dag = sel::Dag::new();
    let a = dag.add_node(sel::Node::new("a", sel::PlacedOp::new_gen_op(sel::Op::Ref)));
    let b = dag.add_node(sel::Node::new("b", sel::PlacedOp::new_gen_op(sel::Op::Ref)));
    let x = dag.add_node(sel::Node::new("x", sel::PlacedOp::new_gen_op(sel::Op::Mul)));
    let en = dag.add_node(sel::Node::new("en", sel::PlacedOp::new_gen_op(sel::Op::Ref)));
    let y = dag.add_node(sel::Node::new("y", sel::PlacedOp::new_lut_op(sel::Op::Reg)));
    let c = dag.add_node(sel::Node::new("c", sel::PlacedOp::new_gen_op(sel::Op::Ref)));
    let z = dag.add_node(sel::Node::new("z", sel::PlacedOp::new_gen_op(sel::Op::Add)));
    dag.add_edge(x, a);
    dag.add_edge(x, b);
    dag.add_edge(y, x);
    dag.add_edge(y, en);
    dag.add_edge(z, y);
    dag.add_edge(z, c);

    // discrete cost: add(9) + reg(-4) + mul(9) = 14
    assert_eq!(sel::estimate_cost(&dag, z), 14);

    // the fused pattern: add over reg over mul, all on the DSP, cost 1
    let mut pat = sel::Pattern::new("dsp_add_reg_mul", 1);
    pat.push_op(sel::PlacedOp::new_dsp_op(sel::Op::Add));
    pat.push_op(sel::PlacedOp::new_dsp_op(sel::Op::Reg));
    pat.push_op(sel::PlacedOp::new_dsp_op(sel::Op::Mul));
    pat.push_op(sel::PlacedOp::new_dsp_op(sel::Op::Any));
    pat.push_op(sel::PlacedOp::new_dsp_op(sel::Op::Any));
    pat.push_op(sel::PlacedOp::new_dsp_op(sel::Op::Any));
    pat.push_op(sel::PlacedOp::new_dsp_op(sel::Op::Any));
    sel::select(&mut dag, z, &pat);

    // exactly one matched node holds the concrete class; the others point at it
    assert!(matches!(dag.nodes[z].placed_op.loc, sel::Loc::Dsp));
    assert!(matches!(&dag.nodes[y].placed_op.loc, sel::Loc::Equal(n) if n == "z"));
    assert!(matches!(&dag.nodes[x].placed_op.loc, sel::Loc::Equal(n) if n == "z"));
    // pass-through wiring stays untouched
    assert!(matches!(dag.nodes[a].placed_op.loc, sel::Loc::Gen));
    assert!(matches!(dag.nodes[c].placed_op.loc, sel::Loc::Gen));

    // the fused macro: one DSP48E2 with the multiplier register on and the
    // multiply-accumulate encoding
    let mut fused = prim::DspFused::new(prim::DspFusedOp::MulAdd);
    fused.set_id("z");
    fused.set_input("vcc", prim::Expr::new_ref("vcc"));
    fused.set_input("gnd", prim::Expr::new_ref("gnd"));
    fused.set_input("clock", prim::Expr::new_ref("clock"));
    fused.set_input("reset", prim::Expr::new_ref("reset"));
    fused.set_input("a", prim::Expr::new_ref("a"));
    fused.set_input("b", prim::Expr::new_ref("b"));
    fused.set_input("c", prim::Expr::new_ref("c"));
    fused.set_input("en_mul", prim::Expr::new_ref("en"));
    fused.set_output("y", prim::Expr::new_ref("z"));
    fused.set_reg("mul", 1);
    match fused.to_stmt() {
        verilog::Stmt::Inst(inst) => {
            assert_eq!(inst.prim, "DSP48E2");
            assert!(matches!(param(&inst, "MREG"), verilog::Expr::Int(1)));
            assert!(matches!(param(&inst, "USE_MULT"), verilog::Expr::Str(s) if s == "MULTIPLY"));
            assert_eq!(lit_value(port(&inst, "OPMODE"), "vcc"), 53);
            assert_eq!(lit_value(port(&inst, "ALUMODE"), "vcc"), 0);
            assert!(matches!(port(&inst, "CEM"), verilog::Expr::Ref(n) if n == "en"));
        }
        _ => panic!("a fused DSP lowers to an instance"),
    }
}

#[test]
fn selection_rejects_cost_neutral_rewrite() {
    let mut dag = sel::Dag::new();
    let a = dag.add_node(sel::Node::new("a", sel::PlacedOp::new_gen_op(sel::Op::Ref)));
    let b = dag.add_node(sel::Node::new("b", sel::PlacedOp::new_gen_op(sel::Op::Ref)));
    let t = dag.add_node(sel::Node::new("t", sel::PlacedOp::new_gen_op(sel::Op::Mul)));
    dag.add_edge(t, a);
    dag.add_edge(t, b);
    // current cost is 9; a pattern of equal cost must not be accepted
    let mut pat = sel::Pattern::new("dsp_mul_flat", 9);
    pat.push_op(sel::PlacedOp::new_dsp_op(sel::Op::Mul));
    pat.push_op(sel::PlacedOp::new_dsp_op(sel::Op::Any));
    pat.push_op(sel::PlacedOp::new_dsp_op(sel::Op::Any));
    sel::select(&mut dag, t, &pat);
    assert!(matches!(dag.nodes[t].placed_op.loc, sel::Loc::Gen));
}

#[test]
fn selection_later_pattern_overrides_default_placement() {
    let mut dag = sel::Dag::new();
    let a = dag.add_node(sel::Node::new("a", sel::PlacedOp::new_gen_op(sel::Op::Ref)));
    let b = dag.add_node(sel::Node::new("b", sel::PlacedOp::new_gen_op(sel::Op::Ref)));
    let c = dag.add_node(sel::Node::new("c", sel::PlacedOp::new_gen_op(sel::Op::Ref)));
    let t0 = dag.add_node(sel::Node::new("t0", sel::PlacedOp::new_gen_op(sel::Op::Mul)));
    let t1 = dag.add_node(sel::Node::new("t1", sel::PlacedOp::new_gen_op(sel::Op::Add)));
    dag.add_edge(t0, a);
    dag.add_edge(t0, b);
    dag.add_edge(t1, t0);
    dag.add_edge(t1, c);
    assert_eq!(sel::estimate_cost(&dag, t1), 18);

    let mul = sel::pat_dsp_mul();
    let muladd = sel::pat_dsp_muladd();
    sel::select(&mut dag, t1, &mul);
    // the lone multiply is placed first
    assert!(matches!(dag.nodes[t0].placed_op.loc, sel::Loc::Dsp));
    assert!(matches!(dag.nodes[t1].placed_op.loc, sel::Loc::Gen));
    // the fused pattern then overrides it: mul(2) + add(9) = 11 > 1
    sel::select(&mut dag, t1, &muladd);
    assert!(matches!(dag.nodes[t1].placed_op.loc, sel::Loc::Dsp));
    assert!(matches!(&dag.nodes[t0].placed_op.loc, sel::Loc::Equal(n) if n == "t1"));
}

#[test]
fn cost_table_values() {
    assert_eq!(sel::PlacedOp::new(sel::Op::Add, sel::Loc::Gen).cost(), 9);
    assert_eq!(sel::PlacedOp::new(sel::Op::Add, sel::Loc::Lut).cost(), 8);
    assert_eq!(sel::PlacedOp::new(sel::Op::Add, sel::Loc::Dsp).cost(), 2);
    assert_eq!(sel::PlacedOp::new(sel::Op::Mul, sel::Loc::Gen).cost(), 9);
    assert_eq!(sel::PlacedOp::new(sel::Op::Reg, sel::Loc::Lut).cost(), -4);
    assert_eq!(sel::PlacedOp::new(sel::Op::Reg, sel::Loc::Dsp).cost(), -1);
    assert_eq!(sel::PlacedOp::new(sel::Op::Ref, sel::Loc::Gen).cost(), 0);
    assert_eq!(sel::PlacedOp::new(sel::Op::Reg, sel::Loc::Gen).cost(), 0);
}

#[test]
fn ty_from_str_accepts_the_vocabulary() {
    assert!(matches!(ir::Ty::from_str("bool"), Ok(ir::Ty::Bool)));
    assert!(matches!(ir::Ty::from_str("u8"), Ok(ir::Ty::UInt(8))));
    assert!(matches!(ir::Ty::from_str("i32"), Ok(ir::Ty::SInt(32))));
    match ir::Ty::from_str("u8<4>") {
        Ok(ir::Ty::Vector(e, 4)) => assert!(matches!(*e, ir::Ty::UInt(8))),
        _ => panic!("u8<4> is a vector type"),
    }
    match ir::Ty::from_str("i16<2>") {
        Ok(ir::Ty::Vector(e, 2)) => assert!(matches!(*e, ir::Ty::SInt(16))),
        _ => panic!("i16<2> is a vector type"),
    }
}

#[test]
fn ty_from_str_rejects_bad_tokens() {
    assert!(ir::Ty::from_str("").is_err());
    assert!(ir::Ty::from_str("x8").is_err());
    assert!(ir::Ty::from_str("u").is_err());
    assert!(ir::Ty::from_str("u0").is_err());
    assert!(ir::Ty::from_str("i1").is_err());
    assert!(ir::Ty::from_str("u8<0>").is_err());
    assert!(ir::Ty::from_str("u8<>").is_err());
    assert!(ir::Ty::from_str("uabc").is_err());
    assert!(ir::Ty::from_str("u8<4").is_err());
}

#[test]
fn op_tokens_parse() {
    assert!(matches!(ir::CompOp::from_str("reg"), Ok(ir::CompOp::Reg)));
    assert!(matches!(ir::CompOp::from_str("add"), Ok(ir::CompOp::Add)));
    assert!(matches!(ir::CompOp::from_str("eq"), Ok(ir::CompOp::Eql)));
    assert!(ir::CompOp::from_str("frob").is_err());
    assert!(matches!(ir::WireOp::from_str("const"), Ok(ir::WireOp::Con)));
    assert!(ir::WireOp::from_str("shift").is_err());
    assert!(matches!(ir::Prim::from_str("??"), Ok(ir::Prim::Any)));
    assert!(matches!(ir::Prim::from_str("lut"), Ok(ir::Prim::Lut)));
    assert!(matches!(ir::Prim::from_str("dsp"), Ok(ir::Prim::Dsp)));
    assert!(ir::Prim::from_str("bram").is_err());
}

#[test]
fn descriptor_compiles_fused_entry_to_template_and_pattern() {
    let entry = target::Instr {
        name: "dsp_muladd".to_string(),
        cost: 1,
        loc: "dsp".to_string(),
        ty: "i8".to_string(),
        output: "y".to_string(),
        expr: target::Expr::BinOp(
            "add".to_string(),
            Box::new(target::Expr::BinOp(
                "mul".to_string(),
                Box::new(target::Expr::Input("i8".to_string(), "??".to_string())),
                Box::new(target::Expr::Input("i8".to_string(), "??".to_string())),
            )),
            Box::new(target::Expr::Input("i8".to_string(), "??".to_string())),
        ),
    };
    let def = target::Def { instr: vec![entry] };
    let tg = target::Target::from_def(&def).expect("the entry's tokens all parse");
    assert_eq!(tg.tiles.len(), 1);
    let tile = &tg.tiles[0];
    assert_eq!(tile.instr.op, "dsp_muladd");
    assert!(matches!(tile.instr.loc.prim, ir::Prim::Dsp));
    assert!(matches!(tile.instr.loc.x, placed::ExprCoord::Hole));
    assert!(matches!(tile.instr.loc.y, placed::ExprCoord::Hole));
    assert!(tile.instr.dst.is_none());
    // preorder: add, mul, then the three input leaves
    assert_eq!(tile.pattern.cost, 1);
    assert_eq!(tile.pattern.instr.len(), 5);
    assert!(matches!(tile.pattern.instr[0].op, reticle::tile::SlotOp::Comp(ir::CompOp::Add)));
    assert!(matches!(tile.pattern.instr[1].op, reticle::tile::SlotOp::Comp(ir::CompOp::Mul)));
    assert!(matches!(tile.pattern.instr[2].op, reticle::tile::SlotOp::In));
    assert!(matches!(tile.pattern.instr[3].op, reticle::tile::SlotOp::In));
    assert!(matches!(tile.pattern.instr[4].op, reticle::tile::SlotOp::In));
    assert!(matches!(tile.pattern.instr[0].loc, ir::Prim::Dsp));
}

#[test]
fn descriptor_rejects_bad_tokens() {
    let entry = target::Instr {
        name: "nope".to_string(),
        cost: 1,
        loc: "dsp".to_string(),
        ty: "q8".to_string(),
        output: "y".to_string(),
        expr: target::Expr::Input("i8".to_string(), "??".to_string()),
    };
    let def = target::Def { instr: vec![entry] };
    assert!(target::Target::from_def(&def).is_err());
}

#[test]
fn scalar_arith_emits_muladd() {
    let instr = placed::Instr {
        ty: ir::Ty::SInt(8),
        op: "dsp_add_reg_mul_i8_i8_i8_b_i8".to_string(),
        loc: placed::Loc::new_with_hole(ir::Prim::Dsp),
        dst: None,
        params: Vec::new(),
    };
    assert!(matches!(emit_scalar_op(&instr), Ok(prim::DspScalarOp::MulAdd)));
    let dsp = DspScalarArith::emit(&instr, "d0", "clock", "reset", "en0").unwrap();
    assert!(matches!(dsp.op, prim::DspScalarOp::MulAdd));
    let other = placed::Instr {
        ty: ir::Ty::SInt(8),
        op: "unknown_op".to_string(),
        loc: placed::Loc::new_with_hole(ir::Prim::Dsp),
        dst: None,
        params: Vec::new(),
    };
    assert!(emit_scalar_op(&other).is_err());
}

#[test]
fn reg_bank_wiring_per_bit() {
    let regs = LutRegI8I8B::emit_prim(8, 0b10110000, "clock", "reset", "en", "v", "r");
    assert_eq!(regs.len(), 8);
    for (i, rg) in regs.iter().enumerate() {
        if i == 4 || i == 5 || i == 7 {
            assert!(rg.is_fdse());
        } else {
            assert!(rg.is_fdre());
        }
        assert!(matches!(&rg.input, prim::Expr::Index(n, ix) if n == "v" && *ix == i as u32));
        assert!(matches!(&rg.output, prim::Expr::Index(n, ix) if n == "r" && *ix == i as u32));
        assert!(matches!(&rg.clock, prim::Expr::Ref(n) if n == "clock"));
    }
}

#[test]
fn number_rendering() {
    assert_eq!(numfmt::u64_to_dec(0), "0");
    assert_eq!(numfmt::u64_to_dec(12345), "12345");
    assert_eq!(numfmt::u64_to_hex(0), "0");
    assert_eq!(numfmt::u64_to_hex(0x3fffffffffff), "3fffffffffff");
    assert_eq!(numfmt::u64_to_hex(0xdeadbeef), "deadbeef");
    assert_eq!(numfmt::u64_to_hex2_upper(0x0a), "0A");
    assert_eq!(numfmt::u64_to_hex2_upper(0xff), "FF");
}

#[test]
fn dsp_macro_default_parameters() {
    let mut dsp = xpand::Dsp::default();
    dsp.set_name("d0");
    let inst = dsp.to_instance();
    assert_eq!(inst.id, "d0");
    assert_eq!(inst.prim, "DSP48E2");
    assert_eq!(inst.params.len(), 24);
    assert!(matches!(param(&inst, "USE_MULT"), verilog::Expr::Str(s) if s == "MULTIPLY"));
    assert!(matches!(param(&inst, "USE_SIMD"), verilog::Expr::Str(s) if s == "ONE48"));
    assert!(matches!(param(&inst, "MASK"), verilog::Expr::UlitHex(48, s) if s == "3fffffffffff"));
    assert!(matches!(param(&inst, "RND"), verilog::Expr::UlitHex(48, s) if s == "0"));
    assert!(matches!(param(&inst, "USE_WIDEXOR"), verilog::Expr::Str(s) if s == "FALSE"));
    assert!(matches!(param(&inst, "XORSIMD"), verilog::Expr::Str(s) if s == "XOR24_48_96"));
    assert!(matches!(param(&inst, "IS_CLK_INVERTED"), verilog::Expr::UlitBin(1, s) if s == "0"));
}

#[test]
fn carry_chain_lowering() {
    let mut carry = prim::Carry::new("c0");
    carry.set_input("gnd", prim::Expr::new_ref("gnd"));
    carry.set_input("a", prim::Expr::new_ref("a"));
    carry.set_input("b", prim::Expr::new_ref("b"));
    carry.set_input("ci", prim::Expr::new_ref("ci"));
    carry.set_output("y", prim::Expr::new_ref("y"));
    match carry.to_stmt() {
        verilog::Stmt::Inst(inst) => {
            assert_eq!(inst.prim, "CARRY8");
            assert!(
                matches!(param(&inst, "CARRY_TYPE"), verilog::Expr::Str(s) if s == "SINGLE_CY8")
            );
            assert!(matches!(port(&inst, "DI"), verilog::Expr::Ref(n) if n == "a"));
            assert!(matches!(port(&inst, "CI_TOP"), verilog::Expr::Ref(n) if n == "gnd"));
            assert!(matches!(port(&inst, "CO"), verilog::Expr::Ref(n) if n.is_empty()));
        }
        _ => panic!("a carry chain lowers to an instance"),
    }
}

#[test]
fn const_lowers_to_assignment() {
    let mut cst = prim::Const::new("k0", 4, 0b1010);
    cst.set_input("gnd", prim::Expr::new_ref("gnd"));
    cst.set_input("vcc", prim::Expr::new_ref("vcc"));
    match cst.to_stmt() {
        verilog::Stmt::Assign(lhs, rhs) => {
            assert!(matches!(&lhs, verilog::Expr::Ref(n) if n == "k0"));
            assert_eq!(lit_value(&rhs, "vcc"), 0b1010);
        }
        _ => panic!("a constant lowers to an assignment"),
    }
}

#[test]
fn expr_terms_convert() {
    let v = ir::ExprTerm::Val(7);
    assert_eq!(v.try_into_val().unwrap(), 7);
    assert!(v.try_into_id().is_err());
    let x = ir::ExprTerm::Var("x".to_string(), ir::Ty::Bool);
    assert_eq!(x.try_into_id().unwrap(), "x");
    assert!(x.try_into_val().is_err());
    let tup = ir::ExprTup { term: vec![ir::ExprTerm::Val(1), ir::ExprTerm::Val(2)] };
    assert_eq!(tup.try_into_vals().unwrap(), vec![1, 2]);
    assert!(tup.try_into_ids().is_err());
}

#[test]
fn interpreter_flags() {
    let mut it = reticle::interp::Interpreter::default();
    assert!(!it.is_malformed());
    assert!(!it.is_finished());
    assert!(!it.is_failed());
    it.with_print();
    assert!(!it.is_failed());
}

#[test]
fn vcc_gnd_lowering() {
    let vcc = prim::Vcc::new("_vcc", prim::Expr::new_ref("vcc"));
    match vcc.to_stmt() {
        verilog::Stmt::Inst(inst) => {
            assert_eq!(inst.prim, "VCC");
            assert!(matches!(port(&inst, "P"), verilog::Expr::Ref(n) if n == "vcc"));
        }
        _ => panic!("the tied-high driver lowers to an instance"),
    }
    let gnd = prim::Gnd::new("_gnd", prim::Expr::new_ref("gnd"));
    match gnd.to_stmt() {
        verilog::Stmt::Inst(inst) => {
            assert_eq!(inst.prim, "GND");
            assert!(matches!(port(&inst, "G"), verilog::Expr::Ref(n) if n == "gnd"));
        }
        _ => panic!("the tied-low driver lowers to an instance"),
    }
}

#[test]
fn errors_carry_their_messages() {
    assert!(matches!(errors::Error::new_conv_error("m"), errors::Error::Conversion(_)));
    assert!(matches!(errors::Error::new_compiler_error("m"), errors::Error::Compiler(_)));
    assert!(matches!(errors::Error::new_placer_error("m"), errors::Error::Placer(_)));
    assert!(matches!(errors::Error::new_opt_error("m"), errors::Error::Opt(_)));
    assert!(matches!(errors::Error::new_type_error("m"), errors::Error::Type(_)));
    assert!(matches!(errors::Error::new_isel_error("m"), errors::Error::Isel(_)));
    assert_eq!(errors::Error::new_parse_error("bad token").msg(), "bad token");
}

#[test]
fn programs_key_definitions_by_name() {
    let mut prog = il::Prog::new();
    prog.insert("main", il::Def { sig: il::Sig { id: "main".to_string() } });
    prog.insert("aux", il::Def { sig: il::Sig { id: "aux".to_string() } });
    assert_eq!(prog.get("main").id(), "main");
    assert_eq!(prog.get("aux").sig().id(), "aux");
    assert_eq!(prog.defs().len(), 2);
}

#[test]
fn catalog_set_param_reports_typed_errors() {
    let mut prim: prims::Prim<prims::CarryParam> = prims::Prim::new();
    // no parameter of that name is declared yet
    match prim.set_param("CARRY_TYPE", prims::CarryParam::default()) {
        Err(prims::PrimError::MissingParam(m)) => assert_eq!(m, "CARRY_TYPE"),
        _ => panic!("an undeclared parameter is a missing-parameter error"),
    }
    prim.param.insert(prims::Param {
        name: "CARRY_TYPE".to_string(),
        width: None,
        value: prims::CarryParam::CarryType(prims::CarryType::Single),
    });
    // carry parameters agree in kind, so the update is accepted
    assert!(prim
        .set_param("CARRY_TYPE", prims::CarryParam::CarryType(prims::CarryType::Dual))
        .is_ok());
    assert!(matches!(
        prim.param.items[0].value,
        prims::CarryParam::CarryType(prims::CarryType::Dual)
    ));
    assert_eq!(
        prims::PrimError::MissingParam("X".to_string()).msg(),
        "Missing parameter: X"
    );
}

#[test]
fn carry_catalog_entry() {
    let entry = prims::Carry::default().to_prim();
    assert_eq!(entry.name(), "CARRY8");
    assert_eq!(entry.param().items.len(), 1);
    assert_eq!(entry.param().items[0].name(), "CARRY_TYPE");
    assert_eq!(entry.param().items[0].name.as_str(), "CARRY_TYPE");
    assert_eq!(prims::CarryType::Dual.text(), "SINGLE_CY8");
    assert_eq!(prims::CarryType::Single.text(), "DUAL_CY4");
    assert!(entry.input().items.is_empty());
    assert!(entry.output().items.is_empty());
}

#[test]
fn bram_catalog_defaults() {
    let ram = bram::Bram::default();
    assert_eq!(ram.0.name(), "RAMB18E2");
    let items = &ram.0.param().items;
    assert_eq!(items.len(), 104);
    assert_eq!(items[0].name(), "CASCADE_ORDER_A");
    assert!(matches!(items[0].value, bram::ParamValue::CascadeOrder(bram::CascadeOrder::Off)));
    // all 72 init slices are zeroed 256-bit words
    for i in 0..8 {
        assert_eq!(items[8 + i].name(), format!("INITP_{:02X}", i));
        match &items[8 + i].value {
            bram::ParamValue::Bytes(256, v) => assert!(v.iter().all(|b| *b == 0)),
            _ => panic!("a parity init slice holds zero bytes"),
        }
    }
    for i in 0..64 {
        assert_eq!(items[16 + i].name(), format!("INIT_{:02X}", i));
    }
    assert_eq!(items[80].name(), "INIT_A");
    assert!(matches!(items[80].value, bram::ParamValue::Num(0)));
    assert_eq!(items[103].name(), "WRITE_MODE_B");
    assert!(matches!(
        items[103].value,
        bram::ParamValue::WriteMode(bram::WriteMode::NoChange)
    ));
    assert_eq!(ram.0.input().items.len(), 35);
    assert_eq!(ram.0.output().items.len(), 8);
    assert_eq!(ram.0.input().items[14].name, "ADDRARDADDR");
    assert_eq!(ram.0.input().items[14].width, 14);
    assert_eq!(ram.0.output().items[4].name, "DOUTADOUT");
    assert_eq!(ram.0.output().items[4].width, 16);
    // a number-flag parameter never accepts an update, per its kind rule
    let mut prim = ram.0;
    assert!(matches!(
        prim.set_param("DOA_REG", bram::ParamValue::BoolNum(true)),
        Err(prims::PrimError::InvalidValue(_))
    ));
    // same-kind updates of a mode parameter are accepted
    assert!(prim
        .set_param(
            "WRITE_MODE_A",
            bram::ParamValue::WriteMode(bram::WriteMode::ReadFirst)
        )
        .is_ok());
}
