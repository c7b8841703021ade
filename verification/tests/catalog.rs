use gpgpu_kernels::{
    kernels, Catalog, ConstructorTypes, Kernel, KernelConstructor, KernelError, Needed,
    PhiloxOutput, PhiloxVariant, SKernel, SKernelConstructor, SNeeded,
};

fn arg(a: &KernelConstructor) -> (bool, String, ConstructorTypes) {
    match a {
        KernelConstructor::KCBuffer(n, t) => (true, n.to_string(), *t),
        KernelConstructor::KCParam(n, t) => (false, n.to_string(), *t),
    }
}

fn owned_arg(a: &SKernelConstructor) -> (bool, String, ConstructorTypes) {
    match a {
        SKernelConstructor::KCBuffer(n, t) => (true, n.clone(), *t),
        SKernelConstructor::KCParam(n, t) => (false, n.clone(), *t),
    }
}

fn args_of(k: &Kernel) -> Vec<(bool, String, ConstructorTypes)> {
    k.args.iter().map(arg).collect()
}

fn needed_of(k: &Kernel) -> Vec<String> {
    k.needed
        .iter()
        .map(|n| match n {
            Needed::FuncName(f) => f.to_string(),
        })
        .collect()
}

fn buffer(name: &str, ty: ConstructorTypes) -> (bool, String, ConstructorTypes) {
    (true, name.to_string(), ty)
}

fn param(name: &str, ty: ConstructorTypes) -> (bool, String, ConstructorTypes) {
    (false, name.to_string(), ty)
}

fn plain(name: &'static str) -> Kernel<'static> {
    Kernel { name, args: vec![], src: String::new(), needed: vec![] }
}

#[test]
fn catalog_has_every_kernel_in_order() {
    let c = kernels();
    let expected: Vec<&str> = vec![
        "philox2x64_10",
        "philox2x64_10_unit",
        "philox2x64_10_normal",
        "philox4x64_10",
        "philox4x64_10_unit",
        "philox4x64_10_normal",
        "philox4x32_10",
        "philox4x32_10_unit",
        "philox4x32_10_normal",
        "plus",
        "minus",
        "times",
        "divides",
        "cplus",
        "cminus",
        "ctimes",
        "cdivides",
        "move",
        "smove",
        "dmove",
        "rdmove",
        "complex_from_real",
        "complex_from_image",
        "real_from_complex",
        "image_from_complex",
        "kc_sqrmod",
        "kc_mod",
        "kc_times",
        "kc_times_conj",
        "kc_divides",
    ];
    assert_eq!(c.len(), 30);
    assert_eq!(c.names(), expected);
}

#[test]
fn every_name_finds_its_own_descriptor() {
    let c = kernels();
    for name in c.names() {
        let k = c.lookup(name).expect("a listed name is found");
        assert_eq!(k.name, name);
    }
}

#[test]
fn no_name_occurs_twice() {
    let names = kernels().names();
    for i in 0..names.len() {
        for j in 0..i {
            assert_ne!(names[i], names[j]);
        }
    }
}

#[test]
fn argument_names_are_unique_within_each_descriptor() {
    let c = kernels();
    for name in c.names() {
        let args = args_of(c.lookup(name).unwrap());
        for i in 0..args.len() {
            for j in 0..i {
                assert_ne!(args[i].1, args[j].1);
            }
        }
    }
}

#[test]
fn unknown_name_is_reported() {
    let c = kernels();
    assert!(matches!(c.lookup("philox8x64_10"), Err(KernelError::UnknownKernelName)));
    assert!(matches!(c.lookup(""), Err(KernelError::UnknownKernelName)));
    assert!(matches!(c.lookup("Plus"), Err(KernelError::UnknownKernelName)));
    assert!(matches!(c.lookup("plus "), Err(KernelError::UnknownKernelName)));
}

#[test]
fn lookup_tells_names_apart() {
    let c = kernels();
    assert_eq!(c.lookup("times").unwrap().src, "    dst[x] = a[x]*b[x];");
    assert_eq!(c.lookup("ctimes").unwrap().src, "    dst[x] = src[x]*c;");
    assert_eq!(c.lookup("kc_times").unwrap().src, "    dst[x] = c_times(a[x],b[x]);");
}

#[test]
fn duplicate_name_is_refused() {
    let r = Catalog::new(vec![plain("a"), plain("b"), plain("a")]);
    assert!(matches!(r, Err(KernelError::DuplicateKernelName)));
    let r = Catalog::new(vec![plain("a"), plain("a")]);
    assert!(matches!(r, Err(KernelError::DuplicateKernelName)));
}

#[test]
fn distinct_names_are_accepted() {
    let c = Catalog::new(vec![plain("a"), plain("b"), plain("ab")]).unwrap();
    assert_eq!(c.len(), 3);
    assert_eq!(c.names(), vec!["a", "b", "ab"]);
    assert_eq!(c.lookup("ab").unwrap().name, "ab");
    let empty = Catalog::new(vec![]).unwrap();
    assert_eq!(empty.len(), 0);
    assert!(matches!(empty.lookup("a"), Err(KernelError::UnknownKernelName)));
}

#[test]
fn generator_kernels_are_rounds_followed_by_suffix() {
    let c = kernels();
    let k = c.lookup("philox2x64_10").unwrap();
    assert_eq!(
        k.src,
        "    ulong key = x;\n    const uint l = 2;\n    const ulong M = 0xD2B74407B1CE6E93;\n    for(int i = 0;i<10;i++){\n        ulong hi = mul_hi(M,src[x*l+0]);\n        ulong lo = M * src[x*l+0];\n        src[x*l+0] = hi^key^src[x*l+1];\n        src[x*l+1] = lo;\n        key += 0x9E3779B97F4A7C15;\n    }\n"
    );
    assert_eq!(args_of(k), vec![buffer("src", ConstructorTypes::CU64)]);
    assert!(k.needed.is_empty());
    let k = c.lookup("philox2x64_10_unit").unwrap();
    assert_eq!(
        k.src,
        "    ulong key = x;\n    const uint l = 2;\n    const ulong M = 0xD2B74407B1CE6E93;\n    for(int i = 0;i<10;i++){\n        ulong hi = mul_hi(M,src[x*l+0]);\n        ulong lo = M * src[x*l+0];\n        src[x*l+0] = hi^key^src[x*l+1];\n        src[x*l+1] = lo;\n        key += 0x9E3779B97F4A7C15;\n    }\n    for(uint i = 0;i<l;i++)\n        dst[x*l+i] = (double)(src[x*l+i]>>11)/(1l << 53);"
    );
    assert_eq!(
        args_of(k),
        vec![buffer("src", ConstructorTypes::CU64), buffer("dst", ConstructorTypes::CF64)]
    );
    assert!(k.needed.is_empty());
    let k = c.lookup("philox2x64_10_normal").unwrap();
    assert_eq!(
        k.src,
        "    ulong key = x;\n    const uint l = 2;\n    const ulong M = 0xD2B74407B1CE6E93;\n    for(int i = 0;i<10;i++){\n        ulong hi = mul_hi(M,src[x*l+0]);\n        ulong lo = M * src[x*l+0];\n        src[x*l+0] = hi^key^src[x*l+1];\n        src[x*l+1] = lo;\n        key += 0x9E3779B97F4A7C15;\n    }\n    for(uint i = 0;i<l;i+=2) {\n        double u1 = (double)(src[x*l+i]>>11)/(1l << 53);\n        double u2 = (double)(src[x*l+i+1]>>11)/(1l << 53);\n        dst[x*l+i] = sqrt(-2*log(u1))*cos(2*M_PI*u2);\n        dst[x*l+i+1] = sqrt(-2*log(u1))*sin(2*M_PI*u2);\n    }"
    );
    assert_eq!(
        args_of(k),
        vec![buffer("src", ConstructorTypes::CU64), buffer("dst", ConstructorTypes::CF64)]
    );
    assert!(k.needed.is_empty());
    let k = c.lookup("philox4x64_10").unwrap();
    assert_eq!(
        k.src,
        "    ulong key[2] = {0,x};\n    const uint l = 4;\n    const ulong M = 0xD2B74407B1CE6E93;\n    const ulong M2 = 0xCA5A826395121157;\n    for(int i = 0;i<10;i++){\n        ulong hi0 = mul_hi(M,src[x*l+0]);\n        ulong lo0 = M * src[x*l+0];\n        ulong hi1 = mul_hi(M2,src[x*l+2]);\n        ulong lo1 = M2 * src[x*l+2];\n        src[x*l+0] = hi1^key[1]^src[x*l+3];\n        src[x*l+2] = hi0^key[0]^src[x*l+1];\n        src[x*l+1] = lo0;\n        src[x*l+3] = lo1;\n        key[0] += 0x9E3779B97F4A7C15;\n        key[1] += 0xBB67AE8584CAA73B;\n    }\n"
    );
    assert_eq!(args_of(k), vec![buffer("src", ConstructorTypes::CU64)]);
    assert!(k.needed.is_empty());
    let k = c.lookup("philox4x64_10_unit").unwrap();
    assert_eq!(
        k.src,
        "    ulong key[2] = {0,x};\n    const uint l = 4;\n    const ulong M = 0xD2B74407B1CE6E93;\n    const ulong M2 = 0xCA5A826395121157;\n    for(int i = 0;i<10;i++){\n        ulong hi0 = mul_hi(M,src[x*l+0]);\n        ulong lo0 = M * src[x*l+0];\n        ulong hi1 = mul_hi(M2,src[x*l+2]);\n        ulong lo1 = M2 * src[x*l+2];\n        src[x*l+0] = hi1^key[1]^src[x*l+3];\n        src[x*l+2] = hi0^key[0]^src[x*l+1];\n        src[x*l+1] = lo0;\n        src[x*l+3] = lo1;\n        key[0] += 0x9E3779B97F4A7C15;\n        key[1] += 0xBB67AE8584CAA73B;\n    }\n    for(uint i = 0;i<l;i++)\n        dst[x*l+i] = (double)(src[x*l+i]>>11)/(1l << 53);"
    );
    assert_eq!(
        args_of(k),
        vec![buffer("src", ConstructorTypes::CU64), buffer("dst", ConstructorTypes::CF64)]
    );
    assert!(k.needed.is_empty());
    let k = c.lookup("philox4x64_10_normal").unwrap();
    assert_eq!(
        k.src,
        "    ulong key[2] = {0,x};\n    const uint l = 4;\n    const ulong M = 0xD2B74407B1CE6E93;\n    const ulong M2 = 0xCA5A826395121157;\n    for(int i = 0;i<10;i++){\n        ulong hi0 = mul_hi(M,src[x*l+0]);\n        ulong lo0 = M * src[x*l+0];\n        ulong hi1 = mul_hi(M2,src[x*l+2]);\n        ulong lo1 = M2 * src[x*l+2];\n        src[x*l+0] = hi1^key[1]^src[x*l+3];\n        src[x*l+2] = hi0^key[0]^src[x*l+1];\n        src[x*l+1] = lo0;\n        src[x*l+3] = lo1;\n        key[0] += 0x9E3779B97F4A7C15;\n        key[1] += 0xBB67AE8584CAA73B;\n    }\n    for(uint i = 0;i<l;i+=2) {\n        double u1 = (double)(src[x*l+i]>>11)/(1l << 53);\n        double u2 = (double)(src[x*l+i+1]>>11)/(1l << 53);\n        dst[x*l+i] = sqrt(-2*log(u1))*cos(2*M_PI*u2);\n        dst[x*l+i+1] = sqrt(-2*log(u1))*sin(2*M_PI*u2);\n    }"
    );
    assert_eq!(
        args_of(k),
        vec![buffer("src", ConstructorTypes::CU64), buffer("dst", ConstructorTypes::CF64)]
    );
    assert!(k.needed.is_empty());
    let k = c.lookup("philox4x32_10").unwrap();
    assert_eq!(
        k.src,
        "    uint key[2] = {x>>32,x};\n    const uint l = 4;\n    const uint M = 0xD2511F53;\n    const uint M2 = 0xCD9E8D57;\n    for(int i = 0;i<10;i++){\n        uint hi0 = mul_hi(M,src[x*l+0]);\n        uint lo0 = M * src[x*l+0];\n        uint hi1 = mul_hi(M2,src[x*l+2]);\n        uint lo1 = M2 * src[x*l+2];\n        src[x*l+0] = hi1^key[1]^src[x*l+3];\n        src[x*l+2] = hi0^key[0]^src[x*l+1];\n        src[x*l+1] = lo0;\n        src[x*l+3] = lo1;\n        key[0] += 0x9E3779B9;\n        key[1] += 0xBB67AE85;\n    }\n"
    );
    assert_eq!(args_of(k), vec![buffer("src", ConstructorTypes::CU32)]);
    assert!(k.needed.is_empty());
    let k = c.lookup("philox4x32_10_unit").unwrap();
    assert_eq!(
        k.src,
        "    uint key[2] = {x>>32,x};\n    const uint l = 4;\n    const uint M = 0xD2511F53;\n    const uint M2 = 0xCD9E8D57;\n    for(int i = 0;i<10;i++){\n        uint hi0 = mul_hi(M,src[x*l+0]);\n        uint lo0 = M * src[x*l+0];\n        uint hi1 = mul_hi(M2,src[x*l+2]);\n        uint lo1 = M2 * src[x*l+2];\n        src[x*l+0] = hi1^key[1]^src[x*l+3];\n        src[x*l+2] = hi0^key[0]^src[x*l+1];\n        src[x*l+1] = lo0;\n        src[x*l+3] = lo1;\n        key[0] += 0x9E3779B9;\n        key[1] += 0xBB67AE85;\n    }\n    const uint l2 = l/2;\n    for(uint i = 0;i<l2;i++)\n        dst[x*l2+i] = (double)(((((ulong)src[x*l+i*2])<<32)+src[x*l+i*2+1])>>11)/(1l << 53);"
    );
    assert_eq!(
        args_of(k),
        vec![buffer("src", ConstructorTypes::CU32), buffer("dst", ConstructorTypes::CF64)]
    );
    assert!(k.needed.is_empty());
    let k = c.lookup("philox4x32_10_normal").unwrap();
    assert_eq!(
        k.src,
        "    uint key[2] = {x>>32,x};\n    const uint l = 4;\n    const uint M = 0xD2511F53;\n    const uint M2 = 0xCD9E8D57;\n    for(int i = 0;i<10;i++){\n        uint hi0 = mul_hi(M,src[x*l+0]);\n        uint lo0 = M * src[x*l+0];\n        uint hi1 = mul_hi(M2,src[x*l+2]);\n        uint lo1 = M2 * src[x*l+2];\n        src[x*l+0] = hi1^key[1]^src[x*l+3];\n        src[x*l+2] = hi0^key[0]^src[x*l+1];\n        src[x*l+1] = lo0;\n        src[x*l+3] = lo1;\n        key[0] += 0x9E3779B9;\n        key[1] += 0xBB67AE85;\n    }\n    const uint l2 = l/2;\n    for(uint i = 0;i<l2;i+=2) {\n        double u1 = (double)(((((ulong)src[x*l+i])<<32)+src[x*l+i+1])>>11)/(1l << 53);\n        double u2 = (double)(((((ulong)src[x*l+i+2])<<32)+src[x*l+i+3])>>11)/(1l << 53);\n        dst[x*l2+i] = sqrt(-2*log(u1))*cos(2*M_PI*u2);\n        dst[x*l2+i+1] = sqrt(-2*log(u1))*sin(2*M_PI*u2);\n    }"
    );
    assert_eq!(
        args_of(k),
        vec![buffer("src", ConstructorTypes::CU32), buffer("dst", ConstructorTypes::CF64)]
    );
    assert!(k.needed.is_empty());
}

#[test]
fn variants_share_the_text_of_their_rounds() {
    let c = kernels();
    for v in [PhiloxVariant::X2x64, PhiloxVariant::X4x64, PhiloxVariant::X4x32] {
        let raw = c.lookup(v.kernel_name(PhiloxOutput::Raw)).unwrap();
        assert_eq!(raw.src, format!("{}{}", v.key_setup(), v.rounds()));
        for o in [PhiloxOutput::Unit, PhiloxOutput::Normal] {
            let k = c.lookup(v.kernel_name(o)).unwrap();
            assert!(k.src.starts_with(&raw.src));
            assert_eq!(k.src, format!("{}{}{}", v.key_setup(), v.rounds(), v.suffix(o)));
            assert_eq!(v.kernel(o).src, k.src);
        }
    }
}

#[test]
fn elementwise_kernels_have_their_arguments_and_bodies() {
    let c = kernels();
    let f = ConstructorTypes::CF64;
    let f2 = ConstructorTypes::CF64_2;
    let k = c.lookup("plus").unwrap();
    assert_eq!(args_of(k), vec![buffer("a", f), buffer("b", f), buffer("dst", f)]);
    assert_eq!(k.src, "    dst[x] = a[x]+b[x];");
    assert_eq!(c.lookup("minus").unwrap().src, "    dst[x] = a[x]-b[x];");
    assert_eq!(c.lookup("divides").unwrap().src, "    dst[x] = a[x]/b[x];");
    let k = c.lookup("cdivides").unwrap();
    assert_eq!(args_of(k), vec![buffer("src", f), param("c", f), buffer("dst", f)]);
    assert_eq!(k.src, "    dst[x] = src[x]/c;");
    assert_eq!(c.lookup("cplus").unwrap().src, "    dst[x] = src[x]+c;");
    assert_eq!(c.lookup("cminus").unwrap().src, "    dst[x] = src[x]-c;");
    let k = c.lookup("move").unwrap();
    assert_eq!(
        args_of(k),
        vec![
            buffer("src", f),
            buffer("dst", f),
            param("size", ConstructorTypes::CU32_4),
            param("offset", ConstructorTypes::CU32)
        ]
    );
    assert_eq!(k.src, "    dst[x+x_size*(y+y_size*z) + offset] = src[x+size.x*(y+size.y*z)];");
    assert_eq!(c.lookup("smove").unwrap().src, "    dst[x+size.x*(y+size.y*z) + offset] = src[x+x_size*(y+y_size*z)];");
    let k = c.lookup("dmove").unwrap();
    assert_eq!(
        args_of(k),
        vec![
            buffer("src", f),
            buffer("dst", f),
            param("size", ConstructorTypes::CU32_4),
            param("dst_size", ConstructorTypes::CU32_4)
        ]
    );
    assert_eq!(k.src, "    dst[dst_size.x*(x+dst_size.y*(y+dst_size.z*z)) + dst_size.w] = src[x+size.x*(y+size.y*z)];");
    assert_eq!(c.lookup("rdmove").unwrap().src, "    dst[x+dst_size.y*(y+dst_size.z*(z+dst_size.x*dst_size.w))] = src[x+size.x*(y+size.y*z)];");
    let k = c.lookup("complex_from_real").unwrap();
    assert_eq!(args_of(k), vec![buffer("src", f), buffer("dst", f2)]);
    assert_eq!(k.src, "    dst[x] = (double2)(src[x],0);");
    assert_eq!(c.lookup("complex_from_image").unwrap().src, "    dst[x] = (double2)(0,src[x]);");
    let k = c.lookup("real_from_complex").unwrap();
    assert_eq!(args_of(k), vec![buffer("src", f2), buffer("dst", f)]);
    assert_eq!(k.src, "    dst[x] = src[x].x;");
    assert_eq!(c.lookup("image_from_complex").unwrap().src, "    dst[x] = src[x].y;");
}

#[test]
fn complex_kernels_declare_the_function_they_call() {
    let c = kernels();
    let f = ConstructorTypes::CF64;
    let f2 = ConstructorTypes::CF64_2;
    let pairs = [
        ("kc_sqrmod", "c_sqrmod", "    dst[x] = c_sqrmod(src[x]);"),
        ("kc_mod", "c_mod", "    dst[x] = c_mod(src[x]);"),
        ("kc_times", "c_times", "    dst[x] = c_times(a[x],b[x]);"),
        ("kc_times_conj", "c_times_conj", "    dst[x] = c_times_conj(a[x],b[x]);"),
        ("kc_divides", "c_divides", "    dst[x] = c_divides(a[x],b[x]);"),
    ];
    for (name, function, src) in pairs {
        let k = c.lookup(name).unwrap();
        assert_eq!(needed_of(k), vec![function.to_string()]);
        assert_eq!(k.src, src);
    }
    assert_eq!(
        args_of(c.lookup("kc_mod").unwrap()),
        vec![buffer("src", f2), buffer("dst", f)]
    );
    assert_eq!(
        args_of(c.lookup("kc_times").unwrap()),
        vec![buffer("a", f2), buffer("b", f2), buffer("dst", f2)]
    );
    assert!(c.lookup("plus").unwrap().needed.is_empty());
    assert!(c.lookup("real_from_complex").unwrap().needed.is_empty());
}

#[test]
fn nothing_defined_leaves_every_dependency_unresolved() {
    let c = kernels();
    let nothing: Vec<&str> = vec![];
    for name in c.names() {
        let k = c.lookup(name).unwrap();
        let r = k.check_dependencies(&nothing);
        if k.needed.is_empty() {
            assert!(r.is_ok());
        } else {
            assert!(matches!(r, Err(KernelError::UnresolvedDependency)));
        }
    }
}

#[test]
fn dependencies_resolve_against_their_definitions() {
    let c = kernels();
    let k = c.lookup("kc_times").unwrap();
    assert!(k.check_dependencies(&vec!["c_mod", "c_times"]).is_ok());
    assert!(matches!(
        k.check_dependencies(&vec!["c_mod", "c_times_conj"]),
        Err(KernelError::UnresolvedDependency)
    ));
    let two = Kernel {
        name: "two",
        args: vec![],
        src: String::new(),
        needed: vec![Needed::FuncName("f"), Needed::FuncName("g")],
    };
    assert!(two.check_dependencies(&vec!["g", "f"]).is_ok());
    assert!(matches!(
        two.check_dependencies(&vec!["f"]),
        Err(KernelError::UnresolvedDependency)
    ));
    assert!(matches!(
        two.check_dependencies(&vec!["g"]),
        Err(KernelError::UnresolvedDependency)
    ));
}

#[test]
fn owned_descriptor_keeps_every_field() {
    let c = kernels();
    for name in c.names() {
        let k = c.lookup(name).unwrap();
        let s = SKernel::from(k);
        assert_eq!(s.name, k.name);
        assert_eq!(s.src, k.src);
        let args: Vec<(bool, String, ConstructorTypes)> = s.args.iter().map(owned_arg).collect();
        assert_eq!(args, args_of(k));
        let needed: Vec<String> = s
            .needed
            .iter()
            .map(|n| match n {
                SNeeded::FuncName(f) => f.clone(),
            })
            .collect();
        assert_eq!(needed, needed_of(k));
    }
}

#[test]
fn owned_argument_keeps_kind_name_and_type() {
    let b = KernelConstructor::KCBuffer("src", ConstructorTypes::CU32);
    let p = KernelConstructor::KCParam("size", ConstructorTypes::CU32_4);
    assert_eq!(owned_arg(&SKernelConstructor::from(&b)), buffer("src", ConstructorTypes::CU32));
    assert_eq!(owned_arg(&SKernelConstructor::from(&p)), param("size", ConstructorTypes::CU32_4));
    let n = Needed::FuncName("c_mod");
    assert!(matches!(SNeeded::from(&n), SNeeded::FuncName(f) if f == "c_mod"));
}

#[test]
fn argument_getters_give_name_type_and_kind() {
    let b = KernelConstructor::KCBuffer("dst", ConstructorTypes::CF64_2);
    let p = KernelConstructor::KCParam("offset", ConstructorTypes::CU32);
    assert_eq!(b.name(), "dst");
    assert_eq!(b.ty(), ConstructorTypes::CF64_2);
    assert!(b.is_buffer());
    assert_eq!(p.name(), "offset");
    assert_eq!(p.ty(), ConstructorTypes::CU32);
    assert!(!p.is_buffer());
}

#[test]
fn repeated_argument_name_is_detected() {
    let f = ConstructorTypes::CF64;
    let good = Kernel {
        name: "k",
        args: vec![
            KernelConstructor::KCBuffer("a", f),
            KernelConstructor::KCParam("b", f),
            KernelConstructor::KCBuffer("ab", f),
        ],
        src: String::new(),
        needed: vec![],
    };
    assert!(good.has_distinct_args());
    let bad = Kernel {
        name: "k",
        args: vec![
            KernelConstructor::KCBuffer("a", f),
            KernelConstructor::KCBuffer("b", f),
            KernelConstructor::KCParam("a", ConstructorTypes::CU32),
        ],
        src: String::new(),
        needed: vec![],
    };
    assert!(!bad.has_distinct_args());
    assert!(plain("none").has_distinct_args());
    let c = kernels();
    for name in c.names() {
        assert!(c.lookup(name).unwrap().has_distinct_args());
    }
}

#[test]
fn four_lane_rounds_multiply_each_lane_by_its_own_multiplier() {
    let c = kernels();
    for name in ["philox4x64_10", "philox4x32_10"] {
        let src = &c.lookup(name).unwrap().src;
        assert!(src.contains("hi0 = mul_hi(M,src[x*l+0]);"));
        assert!(src.contains("lo0 = M * src[x*l+0];"));
        assert!(src.contains("hi1 = mul_hi(M2,src[x*l+2]);"));
        assert!(src.contains("lo1 = M2 * src[x*l+2];"));
        assert!(!src.contains("mul_hi(M,src[x*l+2])"));
    }
}

#[test]
fn a_body_that_calls_a_function_declares_it() {
    let c = kernels();
    for name in c.names() {
        let k = c.lookup(name).unwrap();
        let called: Option<&str> = k
            .src
            .strip_prefix("    dst[x] = ")
            .and_then(|rest| {
                rest.strip_suffix("(src[x]);").or_else(|| rest.strip_suffix("(a[x],b[x]);"))
            });
        match called {
            Some(f) => assert_eq!(needed_of(k), vec![f.to_string()]),
            None => assert!(k.needed.is_empty()),
        }
    }
}
